use vstd::prelude::*;

verus! {

/// Exact value of the linear bonding-curve integral used by the pricing helpers:
/// `base_price * amount + slope * (supply * amount) + floor(slope * amount^2 / 2)`.
pub open spec fn linear_curve_value(base_price: int, slope: int, supply: int, amount: int) -> int {
    base_price * amount + slope * supply * amount + slope * amount * amount / 2
}

/// What a helper returns for a curve value: the value when it fits in a `u64`.
pub open spec fn fit_u64(value: int) -> Option<u64> {
    if 0 <= value <= u64::MAX {
        Some(value as u64)
    } else {
        None
    }
}

proof fn lemma_linear_terms_nonneg(base_price: u64, slope: u64, supply: u64, amount: u64)
    ensures
        0 <= base_price * amount <= u64::MAX * u64::MAX,
        0 <= slope * supply,
        0 <= slope * supply * amount,
        0 <= slope * amount,
        0 <= slope * amount * amount,
        slope * supply <= u64::MAX * u64::MAX,
        slope * amount <= u64::MAX * u64::MAX,
{
    assert(0 <= base_price * amount <= u64::MAX * u64::MAX) by (nonlinear_arith);
    assert(0 <= slope * supply <= u64::MAX * u64::MAX) by (nonlinear_arith);
    assert(0 <= slope * amount <= u64::MAX * u64::MAX) by (nonlinear_arith);
    assert(0 <= slope * supply * amount) by (nonlinear_arith);
    assert(0 <= slope * amount * amount) by (nonlinear_arith);
}

/// What `linear_buy_cost` returns.
pub open spec fn linear_buy_cost_spec(base_price: u64, slope: u64, current_supply: u64, token_amount: u64) -> Option<u64> {
    fit_u64(linear_curve_value(base_price as int, slope as int, current_supply as int, token_amount as int))
}

/// What `linear_sell_refund` returns.
pub open spec fn linear_sell_refund_spec(base_price: u64, slope: u64, current_supply: u64, token_amount: u64) -> Option<u64> {
    if token_amount > current_supply {
        None
    } else {
        fit_u64(linear_curve_value(base_price as int, slope as int, current_supply - token_amount, token_amount as int))
    }
}

/// Cost of buying `token_amount` tokens on a linear curve when `current_supply`
/// tokens are already out: `Some` of the exact curve value when every step of
/// the computation fits, which is exactly when that value fits in a `u64`.
pub fn linear_buy_cost(base_price: u64, slope: u64, current_supply: u64, token_amount: u64) -> (r:
    Option<u64>)
    ensures
        r == linear_buy_cost_spec(base_price, slope, current_supply, token_amount),
        r == fit_u64(linear_curve_value(base_price as int, slope as int, current_supply as int, token_amount as int)),
{
    linear_curve_amount(base_price, slope, current_supply, token_amount)
}

/// Refund for selling `token_amount` tokens back to a linear curve that has
/// `current_supply` tokens out: the curve value of the same tokens counted from
/// the supply that remains after the sale. `None` when more tokens are sold than
/// are out, or when the value does not fit in a `u64`.
pub fn linear_sell_refund(base_price: u64, slope: u64, current_supply: u64, token_amount: u64) -> (r:
    Option<u64>)
    ensures
        r == linear_sell_refund_spec(base_price, slope, current_supply, token_amount),
        token_amount > current_supply ==> r is None,
        token_amount <= current_supply ==> r == fit_u64(
            linear_curve_value(base_price as int, slope as int, current_supply - token_amount, token_amount as int),
        ),
{
    match current_supply.checked_sub(token_amount) {
        None => None,
        Some(new_supply) => linear_curve_amount(base_price, slope, new_supply, token_amount),
    }
}

/// The checked computation shared by both helpers, in 128-bit arithmetic.
fn linear_curve_amount(base_price: u64, slope: u64, supply: u64, amount: u64) -> (r: Option<u64>)
    ensures
        r == fit_u64(linear_curve_value(base_price as int, slope as int, supply as int, amount as int)),
{
    proof {
        lemma_linear_terms_nonneg(base_price, slope, supply, amount);
    }
    let base_cost = match (base_price as u128).checked_mul(amount as u128) {
        Some(v) => v,
        None => return None,
    };
    let slope_supply = match (slope as u128).checked_mul(supply as u128) {
        Some(v) => v,
        None => return None,
    };
    let slope_component1 = match slope_supply.checked_mul(amount as u128) {
        Some(v) => v,
        None => return None,
    };
    let slope_amount = match (slope as u128).checked_mul(amount as u128) {
        Some(v) => v,
        None => return None,
    };
    let slope_squared = match slope_amount.checked_mul(amount as u128) {
        Some(v) => v,
        None => {
            assert(slope * amount * amount / 2 > u64::MAX);
            return None;
        },
    };
    let slope_component2 = match slope_squared.checked_div(2) {
        Some(v) => v,
        None => return None,
    };
    let partial = match base_cost.checked_add(slope_component1) {
        Some(v) => v,
        None => return None,
    };
    let total_cost = match partial.checked_add(slope_component2) {
        Some(v) => v,
        None => return None,
    };
    if total_cost <= u64::MAX as u128 {
        Some(total_cost as u64)
    } else {
        None
    }
}

/// Selling back the tokens that were just bought refunds exactly what they cost:
/// with `supply` tokens out, the refund for selling `amount` out of `supply + amount`
/// equals the cost of buying `amount` at `supply`.
pub proof fn lemma_sell_refund_reverses_buy(base_price: u64, slope: u64, supply: u64, amount: u64)
    requires
        supply + amount <= u64::MAX,
    ensures
        linear_sell_refund_spec(base_price, slope, (supply + amount) as u64, amount)
            == linear_buy_cost_spec(base_price, slope, supply, amount),
{
}

/// Buying more tokens, or buying from further along the curve, never costs less:
/// the curve value grows with the amount bought and with the supply already out.
pub proof fn lemma_linear_cost_monotone(
    base_price: u64,
    slope: u64,
    supply1: u64,
    amount1: u64,
    supply2: u64,
    amount2: u64,
)
    requires
        supply1 <= supply2,
        amount1 <= amount2,
    ensures
        linear_curve_value(base_price as int, slope as int, supply1 as int, amount1 as int)
            <= linear_curve_value(base_price as int, slope as int, supply2 as int, amount2 as int),
{
    let b = base_price as int;
    let k = slope as int;
    assert(b * amount1 <= b * amount2) by (nonlinear_arith)
        requires
            0 <= b,
            0 <= amount1 <= amount2,
    ;
    assert(k * supply1 * amount1 <= k * supply2 * amount2) by (nonlinear_arith)
        requires
            0 <= k,
            0 <= supply1 <= supply2,
            0 <= amount1 <= amount2,
    ;
    assert(k * amount1 * amount1 <= k * amount2 * amount2) by (nonlinear_arith)
        requires
            0 <= k,
            0 <= amount1 <= amount2,
    ;
}

/// Splitting a purchase in two never costs more than buying at once, and saves at
/// most one unit: buying `a` at `supply` and then `c` at `supply + a` costs between
/// the single purchase of `a + c` at `supply` minus one, and that single purchase.
pub proof fn lemma_linear_cost_split(base_price: u64, slope: u64, supply: u64, a: u64, c: u64)
    ensures
        linear_curve_value(base_price as int, slope as int, supply as int, a as int)
            + linear_curve_value(base_price as int, slope as int, supply + a, c as int)
            <= linear_curve_value(base_price as int, slope as int, supply as int, a + c),
        linear_curve_value(base_price as int, slope as int, supply as int, a + c)
            <= linear_curve_value(base_price as int, slope as int, supply as int, a as int)
            + linear_curve_value(base_price as int, slope as int, supply + a, c as int) + 1,
{
    let b = base_price as int;
    let k = slope as int;
    let s = supply as int;
    let x = a as int;
    let y = c as int;
    let whole = linear_curve_value(b, k, s, x + y);
    let first = linear_curve_value(b, k, s, x);
    let second = linear_curve_value(b, k, s + x, y);
    assert(b * (x + y) == b * x + b * y) by (nonlinear_arith);
    assert(k * s * (x + y) == k * s * x + k * s * y) by (nonlinear_arith);
    assert(k * (s + x) * y == k * s * y + k * x * y) by (nonlinear_arith);
    assert(k * (x + y) * (x + y) == k * x * x + k * y * y + 2 * (k * x * y)) by (nonlinear_arith);
    let p = k * x * x;
    let q = k * y * y;
    let m = k * x * y;
    assert(0 <= p && 0 <= q) by (nonlinear_arith)
        requires
            0 <= k,
            0 <= x,
            0 <= y,
            p == k * x * x,
            q == k * y * y,
    ;
    assert((p + q + 2 * m) / 2 == m + (p + q) / 2);
    assert(p / 2 + q / 2 <= (p + q) / 2 <= p / 2 + q / 2 + 1);
}

} // verus!

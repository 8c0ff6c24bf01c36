use vstd::prelude::*;

use crate::constants::{END_MARKET_CAP_SOL, PRICE_SCALE, START_MARKET_CAP_SOL, TOTAL_SUPPLY};

verus! {

// The launchpad's market capitalisation as a function of the supply sold is
// computed by the caller and passed in as `market_cap_at`. These predicates speak
// of what such a function may return; the library relies on nothing else about it.

/// `market_cap_at` may be called on every supply.
pub open spec fn curve_callable<F: Fn(u64) -> u64>(market_cap_at: F) -> bool {
    forall|supply: u64| call_requires(market_cap_at, (supply,))
}

/// `cap` is a value that `market_cap_at` can return for `supply`.
pub open spec fn is_market_cap<F: Fn(u64) -> u64>(market_cap_at: F, supply: u64, cap: u64) -> bool {
    call_ensures(market_cap_at, (supply,), cap)
}

/// The market cap never decreases as more of the supply is sold (and, for one
/// supply, it is a single value).
pub open spec fn curve_monotone<F: Fn(u64) -> u64>(market_cap_at: F) -> bool {
    forall|s1: u64, s2: u64, c1: u64, c2: u64|
        #![trigger is_market_cap(market_cap_at, s1, c1), is_market_cap(market_cap_at, s2, c2)]
        s1 <= s2 && is_market_cap(market_cap_at, s1, c1) && is_market_cap(market_cap_at, s2, c2)
            ==> c1 <= c2
}

/// Up to the whole supply, the market cap stays between the starting cap and
/// the graduation cap.
pub open spec fn curve_within_caps<F: Fn(u64) -> u64>(market_cap_at: F) -> bool {
    forall|s: u64, c: u64|
        #![trigger is_market_cap(market_cap_at, s, c)]
        s <= TOTAL_SUPPLY && is_market_cap(market_cap_at, s, c) ==> START_MARKET_CAP_SOL <= c
            <= END_MARKET_CAP_SOL
}

/// `cap` is the market cap that a curve reports with `sold` tokens out: the
/// starting cap when nothing is sold, otherwise a value of `market_cap_at`.
pub open spec fn is_current_market_cap<F: Fn(u64) -> u64>(market_cap_at: F, sold: u64, cap: u64) -> bool {
    if sold == 0 {
        cap == START_MARKET_CAP_SOL
    } else {
        is_market_cap(market_cap_at, sold, cap)
    }
}

/// The market caps at `from` and at every supply in `lo..=hi` add up within a `u64`.
pub open spec fn caps_sum_fits<F: Fn(u64) -> u64>(market_cap_at: F, from: u64, lo: int, hi: int) -> bool {
    forall|s: u64, c1: u64, c2: u64|
        #![trigger is_market_cap(market_cap_at, from, c1), is_market_cap(market_cap_at, s, c2)]
        lo <= s <= hi && is_market_cap(market_cap_at, from, c1) && is_market_cap(market_cap_at, s, c2)
            ==> c1 + c2 <= u64::MAX
}

/// Lamports that `amount` tokens are worth on the curve between two market caps:
/// their share of the total supply, priced at the (rounded down) average cap.
pub open spec fn curve_trade_value(cap1: int, cap2: int, amount: int) -> int {
    (cap1 + cap2) / 2 * amount / (TOTAL_SUPPLY as int)
}

/// `value` is what `amount` tokens are worth when the supply moves between `from`
/// and `to`, for some market caps that `market_cap_at` returns there.
pub open spec fn is_trade_value<F: Fn(u64) -> u64>(
    market_cap_at: F,
    from: u64,
    to: u64,
    amount: u64,
    value: int,
) -> bool {
    exists|c1: u64, c2: u64|
        #![trigger is_market_cap(market_cap_at, from, c1), is_market_cap(market_cap_at, to, c2)]
        is_market_cap(market_cap_at, from, c1) && is_market_cap(market_cap_at, to, c2)
            && value == curve_trade_value(c1 as int, c2 as int, amount as int)
}

/// `result` is what `amount` tokens are worth when the supply moves between
/// `from` and `to`, taken to 64 bits (the low 64 bits of a value that does not fit),
/// for some market caps that `market_cap_at` returns there.
pub open spec fn is_trade_result<F: Fn(u64) -> u64>(
    market_cap_at: F,
    from: u64,
    to: u64,
    amount: u64,
    result: u64,
) -> bool {
    exists|c1: u64, c2: u64|
        #![trigger is_market_cap(market_cap_at, from, c1), is_market_cap(market_cap_at, to, c2)]
        is_market_cap(market_cap_at, from, c1) && is_market_cap(market_cap_at, to, c2)
            && result == curve_trade_value(c1 as int, c2 as int, amount as int) as u64
}

/// Quoted token price for a market cap: lamports per 10^9 base units.
pub open spec fn token_price_at(cap: int) -> int {
    cap * (PRICE_SCALE as int) / (TOTAL_SUPPLY as int)
}

/// The trade value grows with both market caps and with the amount traded.
pub proof fn lemma_trade_value_monotone(c1: int, c2: int, a: int, d1: int, d2: int, b: int)
    requires
        0 <= c1 <= d1,
        0 <= c2 <= d2,
        0 <= a <= b,
    ensures
        curve_trade_value(c1, c2, a) <= curve_trade_value(d1, d2, b),
{
    let x = (c1 + c2) / 2;
    let y = (d1 + d2) / 2;
    assert(0 <= x <= y);
    assert(x * a <= y * b) by (nonlinear_arith)
        requires
            0 <= x <= y,
            0 <= a <= b,
    ;
    assert(x * a / (TOTAL_SUPPLY as int) <= y * b / (TOTAL_SUPPLY as int)) by (nonlinear_arith)
        requires
            0 <= x * a <= y * b,
    ;
}

/// A trade of at most the whole supply is worth at most the average market cap.
pub proof fn lemma_trade_value_bounded(c1: int, c2: int, amount: int)
    requires
        0 <= c1,
        0 <= c2,
        0 <= amount <= TOTAL_SUPPLY,
    ensures
        0 <= curve_trade_value(c1, c2, amount) <= (c1 + c2) / 2,
{
    let x = (c1 + c2) / 2;
    let t = TOTAL_SUPPLY as int;
    assert(0 <= x * amount <= x * t) by (nonlinear_arith)
        requires
            0 <= x,
            0 <= amount <= t,
    ;
    assert(x * amount / t <= x) by (nonlinear_arith)
        requires
            0 <= x * amount <= x * t,
            t > 0,
    ;
    assert(0 <= x * amount / t) by (nonlinear_arith)
        requires
            0 <= x * amount,
            t > 0,
    ;
}

/// The quoted price is the market cap spread over the whole supply in whole
/// tokens of 10^9 base units: one lamport per 10^8 lamports of market cap.
pub proof fn lemma_token_price_closed_form(cap: int)
    requires
        0 <= cap,
    ensures
        token_price_at(cap) == cap / 100_000_000,
{
    assert(cap * 1_000_000_000 / 100_000_000_000_000_000 == cap / 100_000_000) by (nonlinear_arith)
        requires
            0 <= cap,
    ;
}

/// The price grows with the market cap.
pub proof fn lemma_token_price_monotone(c1: int, c2: int)
    requires
        0 <= c1 <= c2,
    ensures
        token_price_at(c1) <= token_price_at(c2),
{
    assert(c1 * 1_000_000_000 <= c2 * 1_000_000_000);
    assert(c1 * 1_000_000_000 / 100_000_000_000_000_000 <= c2 * 1_000_000_000 / 100_000_000_000_000_000)
        by (nonlinear_arith)
        requires
            0 <= c1 * 1_000_000_000 <= c2 * 1_000_000_000,
    ;
}

/// On a monotone curve that starts no lower than the starting cap, the reported
/// market cap, and with it the token price, never falls as more tokens are sold.
pub proof fn lemma_price_never_falls<F: Fn(u64) -> u64>(
    market_cap_at: F,
    sold1: u64,
    cap1: u64,
    sold2: u64,
    cap2: u64,
)
    requires
        curve_monotone(market_cap_at),
        curve_within_caps(market_cap_at),
        sold1 <= sold2 <= TOTAL_SUPPLY,
        is_current_market_cap(market_cap_at, sold1, cap1),
        is_current_market_cap(market_cap_at, sold2, cap2),
    ensures
        cap1 <= cap2,
        token_price_at(cap1 as int) <= token_price_at(cap2 as int),
{
    if sold2 != 0 {
        assert(is_market_cap(market_cap_at, sold2, cap2));
    }
    lemma_token_price_monotone(cap1 as int, cap2 as int);
}

/// Between caps within the starting and graduation caps, `amount` tokens are
/// worth at least their share of the starting cap and at most their share of
/// the graduation cap.
pub proof fn lemma_trade_value_within_caps(c1: int, c2: int, amount: int)
    requires
        START_MARKET_CAP_SOL <= c1 <= END_MARKET_CAP_SOL,
        START_MARKET_CAP_SOL <= c2 <= END_MARKET_CAP_SOL,
        0 <= amount,
    ensures
        START_MARKET_CAP_SOL * amount / (TOTAL_SUPPLY as int) <= curve_trade_value(c1, c2, amount),
        curve_trade_value(c1, c2, amount) <= END_MARKET_CAP_SOL * amount / (TOTAL_SUPPLY as int),
{
    let s = START_MARKET_CAP_SOL as int;
    let e = END_MARKET_CAP_SOL as int;
    lemma_trade_value_monotone(s, s, amount, c1, c2, amount);
    lemma_trade_value_monotone(c1, c2, amount, e, e, amount);
    assert((s + s) / 2 == s);
    assert((e + e) / 2 == e);
}

/// On a curve within the starting and graduation caps, a purchase of `amount`
/// tokens costs between `START_MARKET_CAP_SOL * amount / TOTAL_SUPPLY` and
/// `END_MARKET_CAP_SOL * amount / TOTAL_SUPPLY`.
pub proof fn lemma_trade_value_bounds<F: Fn(u64) -> u64>(
    market_cap_at: F,
    from: u64,
    to: u64,
    amount: u64,
    value: int,
)
    requires
        curve_within_caps(market_cap_at),
        from <= TOTAL_SUPPLY,
        to <= TOTAL_SUPPLY,
        is_trade_value(market_cap_at, from, to, amount, value),
    ensures
        START_MARKET_CAP_SOL * amount / (TOTAL_SUPPLY as int) <= value <= END_MARKET_CAP_SOL * amount
            / (TOTAL_SUPPLY as int),
{
    let (c1, c2) = choose|c1: u64, c2: u64|
        is_market_cap(market_cap_at, from, c1) && is_market_cap(market_cap_at, to, c2) && value
            == curve_trade_value(c1 as int, c2 as int, amount as int);
    lemma_trade_value_within_caps(c1 as int, c2 as int, amount as int);
}

/// On a monotone curve, buying more tokens, or buying further along the curve,
/// never costs less.
pub proof fn lemma_buy_cost_monotone<F: Fn(u64) -> u64>(
    market_cap_at: F,
    sold1: u64,
    amount1: u64,
    cost1: int,
    sold2: u64,
    amount2: u64,
    cost2: int,
)
    requires
        curve_monotone(market_cap_at),
        sold1 <= sold2,
        amount1 <= amount2,
        sold2 + amount2 <= u64::MAX,
        is_trade_value(market_cap_at, sold1, (sold1 + amount1) as u64, amount1, cost1),
        is_trade_value(market_cap_at, sold2, (sold2 + amount2) as u64, amount2, cost2),
    ensures
        cost1 <= cost2,
{
    let (a1, a2) = choose|c1: u64, c2: u64|
        is_market_cap(market_cap_at, sold1, c1) && is_market_cap(market_cap_at, (sold1 + amount1) as u64, c2)
            && cost1 == curve_trade_value(c1 as int, c2 as int, amount1 as int);
    let (b1, b2) = choose|c1: u64, c2: u64|
        is_market_cap(market_cap_at, sold2, c1) && is_market_cap(market_cap_at, (sold2 + amount2) as u64, c2)
            && cost2 == curve_trade_value(c1 as int, c2 as int, amount2 as int);
    assert(a1 <= b1);
    assert(a2 <= b2);
    lemma_trade_value_monotone(a1 as int, a2 as int, amount1 as int, b1 as int, b2 as int, amount2 as int);
}

} // verus!

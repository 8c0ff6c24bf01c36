use vstd::prelude::*;

use crate::address::Address;
use crate::constants::{END_MARKET_CAP_SOL, PRICE_SCALE, START_MARKET_CAP_SOL, TOTAL_SUPPLY};
use crate::error::ErrorCode;
use crate::market::{
    caps_sum_fits, curve_callable, curve_monotone, curve_within_caps, is_current_market_cap, curve_trade_value, is_market_cap, is_trade_result, is_trade_value,
    lemma_trade_value_bounded, lemma_trade_value_bounds, lemma_trade_value_monotone, lemma_trade_value_within_caps,
    token_price_at,
};

verus! {

/// The state of one token's bonding curve.
#[derive(Clone, Copy, Debug, PartialEq, Eq)]
pub struct BondingCurveVault {
    pub mint: Address,
    pub authority: Address,
    pub token_account: Address,
    pub sol_vault: Address,
    pub creator: Address,
    pub total_supply: u64,
    pub tokens_sold: u64,
    pub sol_raised: u64,
    pub graduated: bool,
    pub migrated: bool,
}

pub open spec fn min_int(a: int, b: int) -> int {
    if a < b {
        a
    } else {
        b
    }
}

/// The largest amount that a purchase with a budget of `max_sol` lamports
/// considers: at most a thousandth of the unsold supply and at most 100,000 tokens
/// per lamport of budget; when that leaves nothing, up to 1,000 tokens.
pub open spec fn purchase_search_limit(tokens_sold: u64, max_sol: u64) -> int {
    let remaining = TOTAL_SUPPLY - tokens_sold;
    let estimate = max_sol * 100_000;
    let conservative = if estimate > u64::MAX {
        remaining / 1000
    } else {
        min_int(estimate, remaining / 1000)
    };
    let high = min_int(remaining, conservative);
    if high == 0 {
        min_int(1000, remaining)
    } else {
        high
    }
}

/// Some cost that the curve can give for buying `amount` tokens from `from`
/// (so that the supply reaches `to`) exceeds `max_sol`.
pub open spec fn cost_exceeds<F: Fn(u64) -> u64>(
    market_cap_at: F,
    from: u64,
    to: u64,
    amount: u64,
    max_sol: u64,
) -> bool {
    exists|c1: u64, c2: u64|
        #![trigger is_market_cap(market_cap_at, from, c1), is_market_cap(market_cap_at, to, c2)]
        is_market_cap(market_cap_at, from, c1) && is_market_cap(market_cap_at, to, c2)
            && curve_trade_value(c1 as int, c2 as int, amount as int) > max_sol
}

/// Every cost that the curve can give for buying `amount` tokens from `from`
/// (so that the supply reaches `to`) exceeds `max_sol`.
pub open spec fn cost_always_exceeds<F: Fn(u64) -> u64>(
    market_cap_at: F,
    from: u64,
    to: u64,
    amount: u64,
    max_sol: u64,
) -> bool {
    forall|c1: u64, c2: u64|
        #![trigger is_market_cap(market_cap_at, from, c1), is_market_cap(market_cap_at, to, c2)]
        is_market_cap(market_cap_at, from, c1) && is_market_cap(market_cap_at, to, c2)
            ==> curve_trade_value(c1 as int, c2 as int, amount as int) > max_sol
}

/// What `calculate_purchase` returns for a vault, a curve and a budget.
///
/// A sold-out curve is refused. Otherwise the search runs over `1..=limit`
/// (`purchase_search_limit`): it returns an amount in that range with a cost
/// within the budget, such that the amount is the limit or one more token
/// would cost too much; or `InsufficientFunds` when a single token costs too
/// much. On a monotone curve the amount is the largest affordable one in the range.
pub open spec fn purchase_outcome<F: Fn(u64) -> u64>(
    vault: BondingCurveVault,
    market_cap_at: F,
    max_sol: u64,
    r: Result<(u64, u64), ErrorCode>,
) -> bool {
    let sold = vault.tokens_sold;
    let limit = purchase_search_limit(sold, max_sol);
    if sold == TOTAL_SUPPLY {
        r == Err::<(u64, u64), ErrorCode>(ErrorCode::SoldOut)
    } else {
        match r {
            Ok((tokens, cost)) => {
                &&& 1 <= tokens <= limit
                &&& cost <= max_sol
                &&& is_trade_value(market_cap_at, sold, (sold + tokens) as u64, tokens, cost as int)
                &&& (tokens < limit ==> cost_exceeds(
                    market_cap_at,
                    sold,
                    (sold + tokens + 1) as u64,
                    (tokens + 1) as u64,
                    max_sol,
                ))
                &&& (curve_monotone(market_cap_at) ==> forall|m: u64|
                    #![trigger cost_always_exceeds(market_cap_at, sold, (sold + m) as u64, m, max_sol)]
                    tokens < m <= limit ==> cost_always_exceeds(
                        market_cap_at,
                        sold,
                        (sold + m) as u64,
                        m,
                        max_sol,
                    ))
            },
            Err(e) => {
                &&& e == ErrorCode::InsufficientFunds
                &&& cost_exceeds(market_cap_at, sold, (sold + 1) as u64, 1, max_sol)
                &&& (curve_monotone(market_cap_at) ==> forall|m: u64|
                    #![trigger cost_always_exceeds(market_cap_at, sold, (sold + m) as u64, m, max_sol)]
                    1 <= m <= limit ==> cost_always_exceeds(
                        market_cap_at,
                        sold,
                        (sold + m) as u64,
                        m,
                        max_sol,
                    ))
            },
        }
    }
}

fn min_u64(a: u64, b: u64) -> (r: u64)
    ensures
        r == min_int(a as int, b as int),
{
    if a < b {
        a
    } else {
        b
    }
}

/// Price of a token, in lamports per 10^9 base units, at a given market cap.
fn price_at_market_cap(market_cap: u64) -> (r: u64)
    ensures
        r == token_price_at(market_cap as int),
{
    proof {
        let c = market_cap as int;
        assert(c * 1_000_000_000 <= u64::MAX * 1_000_000_000) by (nonlinear_arith)
            requires
                0 <= c <= u64::MAX,
        ;
        assert(c * 1_000_000_000 / 100_000_000_000_000_000 <= c) by (nonlinear_arith)
            requires
                0 <= c,
        ;
    }
    let scaled: u128 = market_cap as u128 * PRICE_SCALE as u128;
    (scaled / TOTAL_SUPPLY as u128) as u64
}

/// On a monotone curve, once some cost of buying `k` tokens exceeds the budget,
/// every cost of buying `m >= k` tokens from the same supply does too.
pub proof fn lemma_exceeds_propagates<F: Fn(u64) -> u64>(
    market_cap_at: F,
    sold: u64,
    k: u64,
    m: u64,
    max_sol: u64,
)
    requires
        curve_monotone(market_cap_at),
        1 <= k <= m,
        sold + m <= u64::MAX,
        cost_exceeds(market_cap_at, sold, (sold + k) as u64, k, max_sol),
    ensures
        cost_always_exceeds(market_cap_at, sold, (sold + m) as u64, m, max_sol),
{
    let (c1, c2) = choose|c1: u64, c2: u64|
        is_market_cap(market_cap_at, sold, c1) && is_market_cap(market_cap_at, (sold + k) as u64, c2)
            && curve_trade_value(c1 as int, c2 as int, k as int) > max_sol;
    assert forall|d1: u64, d2: u64|
        is_market_cap(market_cap_at, sold, d1) && is_market_cap(market_cap_at, (sold + m) as u64, d2)
        implies curve_trade_value(d1 as int, d2 as int, m as int) > max_sol by {
        assert(c1 <= d1);
        assert(c2 <= d2);
        lemma_trade_value_monotone(c1 as int, c2 as int, k as int, d1 as int, d2 as int, m as int);
    }
}

/// On a curve within the starting and graduation caps a single token costs
/// nothing (the graduation cap is far below the supply), so a purchase on a curve
/// that is not sold out always succeeds.
pub proof fn lemma_bounded_curve_purchase_succeeds<F: Fn(u64) -> u64>(
    vault: BondingCurveVault,
    market_cap_at: F,
    max_sol: u64,
    r: Result<(u64, u64), ErrorCode>,
)
    requires
        curve_within_caps(market_cap_at),
        vault.tokens_sold < TOTAL_SUPPLY,
        purchase_outcome(vault, market_cap_at, max_sol, r),
    ensures
        r is Ok,
{
    if r is Err {
        let sold = vault.tokens_sold;
        let (c1, c2) = choose|c1: u64, c2: u64|
            is_market_cap(market_cap_at, sold, c1) && is_market_cap(market_cap_at, (sold + 1) as u64, c2)
                && curve_trade_value(c1 as int, c2 as int, 1) > max_sol;
        assert(c1 <= END_MARKET_CAP_SOL && c2 <= END_MARKET_CAP_SOL);
        assert((c1 + c2) / 2 * 1 / (TOTAL_SUPPLY as int) == 0);
    }
}

/// The search bound of a purchase, in closed form: with `rem` tokens unsold, a
/// budget of `max_sol` lamports considers at most `min(100_000 * max_sol, rem / 1000)`
/// tokens (0.1% of the unsold supply), and up to `min(1000, rem)` tokens when the
/// budget is zero or fewer than 1000 tokens remain.
pub proof fn lemma_search_limit_closed_form(sold: u64, max_sol: u64)
    requires
        sold < TOTAL_SUPPLY,
    ensures
        ({
            let rem = TOTAL_SUPPLY - sold;
            purchase_search_limit(sold, max_sol) == if max_sol == 0 || rem < 1000 {
                if rem < 1000 { rem } else { 1000 }
            } else if max_sol * 100_000 <= rem / 1000 {
                max_sol * 100_000
            } else {
                rem / 1000
            }
        }),
        1 <= purchase_search_limit(sold, max_sol) <= TOTAL_SUPPLY - sold,
{
}

/// A purchase never hands out more than its search bound: `min(100_000 * max_sol,
/// rem / 1000)` tokens for a non-zero budget when at least 1000 of the `rem`
/// unsold tokens remain, otherwise at most `min(1000, rem)`. In particular it never
/// exceeds 0.1% of the unsold supply once that is at least 1000 tokens, nor
/// 100,000 tokens per lamport of a non-zero budget.
pub proof fn lemma_purchase_within_bound<F: Fn(u64) -> u64>(
    vault: BondingCurveVault,
    market_cap_at: F,
    max_sol: u64,
    r: Result<(u64, u64), ErrorCode>,
)
    requires
        vault.tokens_sold < TOTAL_SUPPLY,
        purchase_outcome(vault, market_cap_at, max_sol, r),
    ensures
        r matches Ok((tokens, cost)) ==> {
            let rem = TOTAL_SUPPLY - vault.tokens_sold;
            &&& 1 <= tokens
            &&& tokens <= rem
            &&& cost <= max_sol
            &&& (max_sol == 0 || rem < 1000 ==> tokens <= 1000)
            &&& (max_sol > 0 && rem >= 1000 ==> tokens <= max_sol * 100_000 && tokens <= rem / 1000)
            &&& (rem >= 1_000_000 ==> tokens <= rem / 1000)
        },
{
    lemma_search_limit_closed_form(vault.tokens_sold, max_sol);
}

/// On a curve within the starting and graduation caps every amount up to the
/// search bound is affordable, so a purchase on a curve that is not sold out
/// buys exactly the search bound, in closed form: `min(100_000 * max_sol, rem / 1000)`
/// tokens for a non-zero budget with at least 1000 of the `rem` unsold tokens left,
/// otherwise `min(1000, rem)`; and it costs between their share of the starting
/// cap and their share of the graduation cap.
pub proof fn lemma_bounded_curve_purchase_exact<F: Fn(u64) -> u64>(
    vault: BondingCurveVault,
    market_cap_at: F,
    max_sol: u64,
    r: Result<(u64, u64), ErrorCode>,
)
    requires
        curve_within_caps(market_cap_at),
        vault.tokens_sold < TOTAL_SUPPLY,
        purchase_outcome(vault, market_cap_at, max_sol, r),
    ensures
        r matches Ok((tokens, cost)) && {
            let rem = TOTAL_SUPPLY - vault.tokens_sold;
            &&& tokens == if max_sol == 0 || rem < 1000 {
                if rem < 1000 { rem } else { 1000 }
            } else if max_sol * 100_000 <= rem / 1000 {
                max_sol * 100_000
            } else {
                rem / 1000
            }
            &&& START_MARKET_CAP_SOL * tokens / (TOTAL_SUPPLY as int) <= cost
            &&& cost <= END_MARKET_CAP_SOL * tokens / (TOTAL_SUPPLY as int)
        },
{
    let sold = vault.tokens_sold;
    let limit = purchase_search_limit(sold, max_sol);
    lemma_search_limit_closed_form(sold, max_sol);
    lemma_bounded_curve_purchase_succeeds(vault, market_cap_at, max_sol, r);
    let (tokens, cost) = r->Ok_0;
    // Every amount up to the bound is affordable on such a curve.
    assert(END_MARKET_CAP_SOL * limit / (TOTAL_SUPPLY as int) <= max_sol) by (nonlinear_arith)
        requires
            1 <= limit,
            max_sol == 0 ==> limit <= 1000,
            max_sol > 0 ==> limit <= max_sol * 100_000 || limit <= 1000,
            END_MARKET_CAP_SOL == 1_000_000_000,
            TOTAL_SUPPLY == 100_000_000_000_000_000,
    ;
    if tokens < limit {
        let m = (tokens + 1) as u64;
        let (c1, c2) = choose|c1: u64, c2: u64|
            is_market_cap(market_cap_at, sold, c1) && is_market_cap(market_cap_at, (sold + tokens + 1) as u64, c2)
                && curve_trade_value(c1 as int, c2 as int, m as int) > max_sol;
        lemma_trade_value_within_caps(c1 as int, c2 as int, m as int);
        assert(END_MARKET_CAP_SOL * m / (TOTAL_SUPPLY as int) <= END_MARKET_CAP_SOL * limit / (TOTAL_SUPPLY as int))
            by (nonlinear_arith)
            requires
                0 <= m <= limit,
        ;
    }
    lemma_trade_value_bounds(market_cap_at, sold, (sold + tokens) as u64, tokens, cost as int);
}

impl BondingCurveVault {
    /// The curve never has more tokens sold than it holds.
    pub open spec fn wf(&self) -> bool {
        self.tokens_sold <= TOTAL_SUPPLY
    }

    /// Only a graduated curve is ever migrated.
    pub open spec fn migration_consistent(&self) -> bool {
        self.migrated ==> self.graduated
    }

    /// Whether the curve is well formed (`wf`).
    pub fn is_well_formed(&self) -> (r: bool)
        ensures
            r == self.wf(),
    {
        self.tokens_sold <= TOTAL_SUPPLY
    }

    /// Market cap of the curve at its current supply: the starting cap when
    /// nothing is sold, otherwise what the curve gives there.
    pub fn calculate_current_market_cap<F: Fn(u64) -> u64>(&self, market_cap_at: &F) -> (r: u64)
        requires
            curve_callable(*market_cap_at),
        ensures
            self.tokens_sold == 0 ==> r == START_MARKET_CAP_SOL,
            self.tokens_sold != 0 ==> is_market_cap(*market_cap_at, self.tokens_sold, r),
            is_current_market_cap(*market_cap_at, self.tokens_sold, r),
    {
        if self.tokens_sold == 0 {
            return START_MARKET_CAP_SOL;
        }
        market_cap_at(self.tokens_sold)
    }

    /// Current token price, in lamports per 10^9 base units, from the current
    /// market cap spread over the whole supply.
    pub fn get_current_token_price<F: Fn(u64) -> u64>(&self, market_cap_at: &F) -> (r: u64)
        requires
            curve_callable(*market_cap_at),
        ensures
            self.tokens_sold == 0 ==> r == token_price_at(START_MARKET_CAP_SOL as int),
            self.tokens_sold != 0 ==> exists|c: u64|
                is_market_cap(*market_cap_at, self.tokens_sold, c) && r == token_price_at(c as int),
            exists|c: u64|
                is_current_market_cap(*market_cap_at, self.tokens_sold, c) && r == token_price_at(c as int),
    {
        if self.tokens_sold == 0 {
            let price = price_at_market_cap(START_MARKET_CAP_SOL);
            assert(is_current_market_cap(*market_cap_at, self.tokens_sold, START_MARKET_CAP_SOL));
            return price;
        }
        let current_market_cap = market_cap_at(self.tokens_sold);
        let price = price_at_market_cap(current_market_cap);
        assert(is_market_cap(*market_cap_at, self.tokens_sold, current_market_cap));
        assert(is_current_market_cap(*market_cap_at, self.tokens_sold, current_market_cap));
        price
    }

    /// Cost of buying `token_amount` more tokens: their share of the supply at
    /// the average of the market caps before and after the purchase.
    pub fn calculate_buy_cost<F: Fn(u64) -> u64>(&self, token_amount: u64, market_cap_at: &F) -> (r:
        Result<u64, ErrorCode>)
        requires
            curve_callable(*market_cap_at),
            self.tokens_sold + token_amount <= u64::MAX,
            caps_sum_fits(
                *market_cap_at,
                self.tokens_sold,
                self.tokens_sold + token_amount,
                self.tokens_sold + token_amount,
            ),
        ensures
            self.tokens_sold + token_amount > TOTAL_SUPPLY ==> r == Err::<u64, ErrorCode>(
                ErrorCode::ExceedsSupply,
            ),
            self.tokens_sold + token_amount <= TOTAL_SUPPLY ==> r is Ok && is_trade_value(
                *market_cap_at,
                self.tokens_sold,
                (self.tokens_sold + token_amount) as u64,
                token_amount,
                r->Ok_0 as int,
            ),
    {
        if !(self.tokens_sold + token_amount <= TOTAL_SUPPLY) {
            return Err(ErrorCode::ExceedsSupply);
        }
        let start_tokens = self.tokens_sold;
        let end_tokens = start_tokens + token_amount;
        let start_market_cap = market_cap_at(start_tokens);
        let end_market_cap = market_cap_at(end_tokens);
        assert(is_market_cap(*market_cap_at, start_tokens, start_market_cap));
        assert(is_market_cap(*market_cap_at, end_tokens, end_market_cap));
        let average_market_cap = (start_market_cap + end_market_cap) / 2;
        proof {
            lemma_trade_value_bounded(start_market_cap as int, end_market_cap as int, token_amount as int);
            assert(average_market_cap * token_amount <= u64::MAX * u64::MAX) by (nonlinear_arith)
                requires
                    average_market_cap <= u64::MAX,
                    token_amount <= u64::MAX,
            ;
        }
        let cost = ((average_market_cap as u128 * token_amount as u128) / TOTAL_SUPPLY as u128) as u64;
        Ok(cost)
    }

    /// Largest purchase that fits a budget of `max_sol` lamports, found by binary
    /// search over `1..=purchase_search_limit(..)`, with its cost.
    pub fn calculate_purchase<F: Fn(u64) -> u64>(&self, max_sol: u64, market_cap_at: &F) -> (r: Result<
        (u64, u64),
        ErrorCode,
    >)
        requires
            self.wf(),
            curve_callable(*market_cap_at),
            caps_sum_fits(
                *market_cap_at,
                self.tokens_sold,
                self.tokens_sold + 1,
                self.tokens_sold + purchase_search_limit(self.tokens_sold, max_sol),
            ),
        ensures
            purchase_outcome(*self, *market_cap_at, max_sol, r),
    {
        let ghost sold = self.tokens_sold;
        let tokens_remaining = TOTAL_SUPPLY - self.tokens_sold;
        if !(tokens_remaining > 0) {
            return Err(ErrorCode::SoldOut);
        }
        let mut low: u64 = 1;
        let conservative_estimate_u128: u128 = (max_sol as u128) * 100_000u128;
        let conservative_estimate = if conservative_estimate_u128 > u64::MAX as u128 {
            tokens_remaining / 1000
        } else {
            min_u64(conservative_estimate_u128 as u64, tokens_remaining / 1000)
        };
        let mut high = min_u64(tokens_remaining, conservative_estimate);
        if high == 0 {
            high = min_u64(1000u64, tokens_remaining);
        }
        let ghost limit = high as int;
        assert(limit == purchase_search_limit(sold, max_sol));
        let mut best_tokens: u64 = 0;
        let mut best_cost: u64 = 0;
        while low <= high
            invariant
                self.wf(),
                sold == self.tokens_sold,
                sold < TOTAL_SUPPLY,
                curve_callable(*market_cap_at),
                caps_sum_fits(*market_cap_at, sold, sold + 1, sold + limit),
                limit == purchase_search_limit(sold, max_sol),
                1 <= limit <= TOTAL_SUPPLY - sold,
                1 <= low <= limit + 1,
                high <= limit,
                low <= high + 1,
                best_tokens == low - 1,
                best_tokens > 0 ==> best_cost <= max_sol && is_trade_value(
                    *market_cap_at,
                    sold,
                    (sold + best_tokens) as u64,
                    best_tokens,
                    best_cost as int,
                ),
                high < limit ==> cost_exceeds(
                    *market_cap_at,
                    sold,
                    (sold + high + 1) as u64,
                    (high + 1) as u64,
                    max_sol,
                ),
            decreases high + 1 - low,
        {
            let mid = (low + high) / 2;
            match self.calculate_buy_cost(mid, market_cap_at) {
                Ok(cost) => {
                    if cost <= max_sol {
                        best_tokens = mid;
                        best_cost = cost;
                        low = mid + 1;
                    } else {
                        high = mid - 1;
                    }
                },
                Err(_) => {
                    high = mid - 1;
                },
            }
        }
        if !(best_tokens > 0) {
            proof {
                if curve_monotone(*market_cap_at) {
                    assert forall|m: u64| 1 <= m <= limit implies #[trigger] cost_always_exceeds(
                        *market_cap_at,
                        sold,
                        (sold + m) as u64,
                        m,
                        max_sol,
                    ) by {
                        lemma_exceeds_propagates(*market_cap_at, sold, 1, m, max_sol);
                    }
                }
            }
            return Err(ErrorCode::InsufficientFunds);
        }
        proof {
            if curve_monotone(*market_cap_at) {
                assert forall|m: u64| best_tokens < m <= limit implies #[trigger] cost_always_exceeds(
                    *market_cap_at,
                    sold,
                    (sold + m) as u64,
                    m,
                    max_sol,
                ) by {
                    lemma_exceeds_propagates(*market_cap_at, sold, (best_tokens + 1) as u64, m, max_sol);
                }
            }
        }
        Ok((best_tokens, best_cost))
    }

    /// Refund for selling `token_amount` tokens back: their share of the supply at
    /// the average of the market caps before and after the sale, taken to 64 bits.
    pub fn calculate_sell_return<F: Fn(u64) -> u64>(&self, token_amount: u64, market_cap_at: &F) -> (r:
        Result<u64, ErrorCode>)
        requires
            curve_callable(*market_cap_at),
            token_amount <= self.tokens_sold ==> caps_sum_fits(
                *market_cap_at,
                self.tokens_sold,
                self.tokens_sold - token_amount,
                self.tokens_sold - token_amount,
            ),
        ensures
            token_amount > self.tokens_sold ==> r == Err::<u64, ErrorCode>(
                ErrorCode::InsufficientTokensSold,
            ),
            token_amount <= self.tokens_sold ==> r is Ok && is_trade_result(
                *market_cap_at,
                self.tokens_sold,
                (self.tokens_sold - token_amount) as u64,
                token_amount,
                r->Ok_0,
            ),
            token_amount <= self.tokens_sold && self.wf() ==> is_trade_value(
                *market_cap_at,
                self.tokens_sold,
                (self.tokens_sold - token_amount) as u64,
                token_amount,
                r->Ok_0 as int,
            ),
    {
        if !(token_amount <= self.tokens_sold) {
            return Err(ErrorCode::InsufficientTokensSold);
        }
        let start_tokens = self.tokens_sold;
        let end_tokens = start_tokens - token_amount;
        let start_market_cap = market_cap_at(start_tokens);
        let end_market_cap = market_cap_at(end_tokens);
        assert(is_market_cap(*market_cap_at, start_tokens, start_market_cap));
        assert(is_market_cap(*market_cap_at, end_tokens, end_market_cap));
        let average_market_cap = (start_market_cap + end_market_cap) / 2;
        proof {
            if self.wf() {
                lemma_trade_value_bounded(start_market_cap as int, end_market_cap as int, token_amount as int);
            }
            assert(average_market_cap * token_amount <= u64::MAX * u64::MAX) by (nonlinear_arith)
                requires
                    average_market_cap <= u64::MAX,
                    token_amount <= u64::MAX,
            ;
        }
        let return_amount = ((average_market_cap as u128 * token_amount as u128)
            / TOTAL_SUPPLY as u128) as u64;
        Ok(return_amount)
    }
}

} // verus!

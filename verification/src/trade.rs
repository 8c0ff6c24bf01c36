use vstd::prelude::*;

use crate::address::Address;
use crate::constants::{BPS_DENOMINATOR, END_MARKET_CAP_SOL, START_MARKET_CAP_SOL, TOTAL_SUPPLY, TRADE_FEE_BPS};
use crate::error::ErrorCode;
use crate::events::{BondingCurveGraduatedEvent, BondingCurveTradeEvent};
use crate::market::{caps_sum_fits, curve_callable, curve_monotone, curve_trade_value, is_market_cap, is_trade_result, is_trade_value, token_price_at};
use crate::vault::{purchase_outcome, purchase_search_limit, BondingCurveVault};

verus! {

/// How the lamports of one trade are shared out.
#[derive(Clone, Copy, Debug, PartialEq, Eq)]
pub struct TradeFees {
    /// The whole fee: 2% of the trade, rounded down.
    pub total_fee: u64,
    /// Half of the fee, rounded down, for the token's creator.
    pub creator_fee: u64,
    /// The rest of the fee, for the platform.
    pub platform_fee: u64,
    /// What is left of the trade after the fee.
    pub net_amount: u64,
}

/// The fees of a trade of `gross` lamports.
pub open spec fn fees_for(gross: u64) -> TradeFees {
    let total_fee = (gross * TRADE_FEE_BPS / (BPS_DENOMINATOR as int)) as u64;
    let creator_fee = (total_fee / 2) as u64;
    TradeFees {
        total_fee,
        creator_fee,
        platform_fee: (total_fee - creator_fee) as u64,
        net_amount: (gross - total_fee) as u64,
    }
}

/// The fee split given the total fee of a trade.
fn fees_with_total(gross: u64, total_fee: u64) -> (r: TradeFees)
    requires
        total_fee == gross * TRADE_FEE_BPS / (BPS_DENOMINATOR as int),
    ensures
        r == fees_for(gross),
{
    let creator_fee = total_fee / 2;
    let platform_fee = total_fee - creator_fee;
    let net_amount = gross - total_fee;
    TradeFees { total_fee, creator_fee, platform_fee, net_amount }
}

impl TradeFees {
    /// Splits a trade of `gross` lamports, computing the fee in 128-bit arithmetic.
    pub fn split(gross: u64) -> (r: TradeFees)
        ensures
            r == fees_for(gross),
    {
        proof {
            assert(gross * 200 / 10_000 <= gross) by (nonlinear_arith)
                requires
                    0 <= gross,
            ;
        }
        let total_fee = (gross as u128 * TRADE_FEE_BPS as u128 / BPS_DENOMINATOR as u128) as u64;
        fees_with_total(gross, total_fee)
    }
}

/// The fee split loses and creates nothing: creator fee, platform fee and net
/// amount add up to the trade, the platform gets the creator's share or one
/// lamport more, and the fee is 2% of the trade rounded down.
pub proof fn lemma_fees_conserve(gross: u64)
    ensures
        fees_for(gross).creator_fee + fees_for(gross).platform_fee + fees_for(gross).net_amount == gross,
        fees_for(gross).creator_fee <= fees_for(gross).platform_fee <= fees_for(gross).creator_fee + 1,
        fees_for(gross).total_fee == fees_for(gross).creator_fee + fees_for(gross).platform_fee,
        fees_for(gross).total_fee == gross / 50,
{
}

/// What a buy is about to do: the tokens to hand out, what they cost and how
/// the buyer's lamports are split.
#[derive(Clone, Copy, Debug, PartialEq, Eq)]
pub struct BuyQuote {
    pub tokens_to_buy: u64,
    pub actual_cost: u64,
    pub fees: TradeFees,
}

/// What a sale is about to do: the tokens taken back, the lamports they are
/// worth and how those lamports are split.
#[derive(Clone, Copy, Debug, PartialEq, Eq)]
pub struct SellQuote {
    pub token_amount: u64,
    pub sol_to_return: u64,
    pub fees: TradeFees,
}

/// What a buy settles to: its trade event and, when this buy made the curve
/// graduate, the graduation event.
#[derive(Clone, Copy, Debug, PartialEq, Eq)]
pub struct BuyOutcome {
    pub trade: BondingCurveTradeEvent,
    pub graduation: Option<BondingCurveGraduatedEvent>,
}

/// The quote of a buy, given the outcome of the purchase search.
pub open spec fn buy_quote_from(
    purchase: Result<(u64, u64), ErrorCode>,
    min_tokens_out: u64,
    buyer_lamports: u64,
) -> Result<BuyQuote, ErrorCode> {
    match purchase {
        Err(e) => Err(e),
        Ok((tokens, cost)) => if tokens < min_tokens_out {
            Err(ErrorCode::SlippageExceeded)
        } else if tokens == 0 {
            Err(ErrorCode::InvalidAmount)
        } else if buyer_lamports < cost {
            Err(ErrorCode::InsufficientFunds)
        } else {
            Ok(BuyQuote { tokens_to_buy: tokens, actual_cost: cost, fees: fees_for(cost) })
        },
    }
}

/// The quote of a sale of `token_amount` tokens worth `value` lamports on the curve.
pub open spec fn sell_quote_from(
    token_amount: u64,
    value: u64,
    min_sol_out: u64,
    vault_lamports: u64,
) -> Result<SellQuote, ErrorCode> {
    if value < min_sol_out {
        Err(ErrorCode::SlippageExceeded)
    } else if vault_lamports < value {
        Err(ErrorCode::VaultInsufficientSol)
    } else {
        Ok(SellQuote { token_amount, sol_to_return: value, fees: fees_for(value) })
    }
}

/// The fee of every value that the curve can give for the sale fits in a `u64`.
pub open spec fn sale_fee_fits<F: Fn(u64) -> u64>(market_cap_at: F, sold: u64, token_amount: u64) -> bool {
    forall|c1: u64, c2: u64|
        #![trigger is_market_cap(market_cap_at, sold, c1), is_market_cap(market_cap_at, (sold - token_amount) as u64, c2)]
        is_market_cap(market_cap_at, sold, c1) && is_market_cap(market_cap_at, (sold - token_amount) as u64, c2)
            ==> (curve_trade_value(c1 as int, c2 as int, token_amount as int) as u64) * TRADE_FEE_BPS <= u64::MAX
}

/// On a monotone curve, selling back tokens that were just bought is worth
/// exactly what they cost: the value of selling `amount` tokens from `sold + amount`
/// down to `sold` equals the cost of buying them from `sold` (both before fees),
/// so after the sale's fees the seller gets back no more than the buyer paid.
pub proof fn lemma_sell_back_returns_buy_cost<F: Fn(u64) -> u64>(
    market_cap_at: F,
    sold: u64,
    amount: u64,
    buy_cost: int,
    sell_value: int,
)
    requires
        curve_monotone(market_cap_at),
        sold + amount <= u64::MAX,
        is_trade_value(market_cap_at, sold, (sold + amount) as u64, amount, buy_cost),
        is_trade_value(market_cap_at, (sold + amount) as u64, sold, amount, sell_value),
    ensures
        buy_cost == sell_value,
        0 <= sell_value <= u64::MAX ==> fees_for(sell_value as u64).net_amount <= buy_cost,
{
    let to = (sold + amount) as u64;
    let (a1, a2) = choose|c1: u64, c2: u64|
        is_market_cap(market_cap_at, sold, c1) && is_market_cap(market_cap_at, to, c2) && buy_cost
            == curve_trade_value(c1 as int, c2 as int, amount as int);
    let (b1, b2) = choose|c1: u64, c2: u64|
        is_market_cap(market_cap_at, to, c1) && is_market_cap(market_cap_at, sold, c2) && sell_value
            == curve_trade_value(c1 as int, c2 as int, amount as int);
    assert(a1 <= b2 && b2 <= a1);
    assert(a2 <= b1 && b1 <= a2);
}

impl BondingCurveVault {
    /// Decides a buy with a budget of `max_sol_cost` lamports: refused once the
    /// curve has graduated; otherwise the purchase search picks the amount, which
    /// must be at least `min_tokens_out` and payable from `buyer_lamports`.
    pub fn quote_buy<F: Fn(u64) -> u64>(
        &self,
        max_sol_cost: u64,
        min_tokens_out: u64,
        buyer_lamports: u64,
        market_cap_at: &F,
    ) -> (r: Result<BuyQuote, ErrorCode>)
        requires
            !self.graduated ==> self.wf(),
            curve_callable(*market_cap_at),
            !self.graduated ==> caps_sum_fits(
                *market_cap_at,
                self.tokens_sold,
                self.tokens_sold + 1,
                self.tokens_sold + purchase_search_limit(self.tokens_sold, max_sol_cost),
            ),
        ensures
            self.graduated ==> r == Err::<BuyQuote, ErrorCode>(ErrorCode::AlreadyGraduated),
            !self.graduated ==> exists|p: Result<(u64, u64), ErrorCode>|
                purchase_outcome(*self, *market_cap_at, max_sol_cost, p) && r == buy_quote_from(
                    p,
                    min_tokens_out,
                    buyer_lamports,
                ),
            r is Ok ==> 0 < r->Ok_0.tokens_to_buy && self.tokens_sold + r->Ok_0.tokens_to_buy
                <= TOTAL_SUPPLY,
    {
        if self.graduated {
            return Err(ErrorCode::AlreadyGraduated);
        }
        let purchase = self.calculate_purchase(max_sol_cost, market_cap_at);
        let result = match purchase {
            Err(e) => Err(e),
            Ok((tokens_to_buy, actual_cost)) => {
                if !(tokens_to_buy >= min_tokens_out) {
                    Err(ErrorCode::SlippageExceeded)
                } else if !(tokens_to_buy > 0) {
                    Err(ErrorCode::InvalidAmount)
                } else {
                    let fees = TradeFees::split(actual_cost);
                    if !(buyer_lamports >= actual_cost) {
                        Err(ErrorCode::InsufficientFunds)
                    } else {
                        Ok(BuyQuote { tokens_to_buy, actual_cost, fees })
                    }
                }
            },
        };
        assert(purchase_outcome(*self, *market_cap_at, max_sol_cost, purchase) && result == buy_quote_from(
            purchase,
            min_tokens_out,
            buyer_lamports,
        ));
        result
    }

    /// Records a paid buy: the tokens are sold, the net lamports raised, and the
    /// curve graduates once its market cap reaches the graduation cap.
    pub fn settle_buy<F: Fn(u64) -> u64>(
        &mut self,
        quote: &BuyQuote,
        mint: Address,
        buyer: Address,
        market_cap_at: &F,
    ) -> (r: BuyOutcome)
        requires
            curve_callable(*market_cap_at),
            old(self).tokens_sold + quote.tokens_to_buy <= u64::MAX,
            old(self).sol_raised + quote.fees.net_amount <= u64::MAX,
        ensures
            final(self).tokens_sold == old(self).tokens_sold + quote.tokens_to_buy,
            final(self).sol_raised == old(self).sol_raised + quote.fees.net_amount,
            final(self).graduated == (old(self).graduated || r.trade.market_cap >= END_MARKET_CAP_SOL),
            final(self).migrated == old(self).migrated,
            final(self).mint == old(self).mint,
            final(self).authority == old(self).authority,
            final(self).token_account == old(self).token_account,
            final(self).sol_vault == old(self).sol_vault,
            final(self).creator == old(self).creator,
            final(self).total_supply == old(self).total_supply,
            old(self).tokens_sold + quote.tokens_to_buy <= TOTAL_SUPPLY ==> final(self).wf(),
            old(self).migration_consistent() ==> final(self).migration_consistent(),
            final(self).tokens_sold == 0 ==> r.trade.market_cap == START_MARKET_CAP_SOL
                && r.trade.new_token_price == token_price_at(START_MARKET_CAP_SOL as int),
            final(self).tokens_sold != 0 ==> is_market_cap(*market_cap_at, final(self).tokens_sold, r.trade.market_cap)
                && exists|c: u64|
                is_market_cap(*market_cap_at, final(self).tokens_sold, c) && r.trade.new_token_price
                    == token_price_at(c as int),
            r.trade.trade_type == 0,
            r.trade.mint_address == mint,
            r.trade.user == buyer,
            r.trade.sol_amount == quote.actual_cost,
            r.trade.token_amount == quote.tokens_to_buy,
            r.graduation == if !old(self).graduated && r.trade.market_cap >= END_MARKET_CAP_SOL {
                Some(
                    BondingCurveGraduatedEvent {
                        mint: old(self).mint,
                        final_market_cap: r.trade.market_cap,
                        total_sol_raised: final(self).sol_raised,
                        tokens_sold: final(self).tokens_sold,
                    },
                )
            } else {
                None::<BondingCurveGraduatedEvent>
            },
    {
        self.tokens_sold = self.tokens_sold + quote.tokens_to_buy;
        self.sol_raised = self.sol_raised + quote.fees.net_amount;
        let current_market_cap = self.calculate_current_market_cap(market_cap_at);
        let mut graduation = None;
        if current_market_cap >= END_MARKET_CAP_SOL && !self.graduated {
            self.graduated = true;
            graduation = Some(
                BondingCurveGraduatedEvent {
                    mint: self.mint,
                    final_market_cap: current_market_cap,
                    total_sol_raised: self.sol_raised,
                    tokens_sold: self.tokens_sold,
                },
            );
        }
        let trade = BondingCurveTradeEvent {
            trade_type: 0,
            mint_address: mint,
            user: buyer,
            sol_amount: quote.actual_cost,
            token_amount: quote.tokens_to_buy,
            new_token_price: self.get_current_token_price(market_cap_at),
            market_cap: current_market_cap,
        };
        BuyOutcome { trade, graduation }
    }

    /// Decides a sale of `token_amount` tokens: refused once the curve has
    /// graduated, for no tokens, or for more tokens than were sold; otherwise the
    /// curve values the tokens, which must bring at least `min_sol_out` and be
    /// covered by the `vault_lamports` of the curve's SOL vault.
    pub fn quote_sell<F: Fn(u64) -> u64>(
        &self,
        token_amount: u64,
        min_sol_out: u64,
        vault_lamports: u64,
        market_cap_at: &F,
    ) -> (r: Result<SellQuote, ErrorCode>)
        requires
            curve_callable(*market_cap_at),
            token_amount <= self.tokens_sold ==> caps_sum_fits(
                *market_cap_at,
                self.tokens_sold,
                self.tokens_sold - token_amount,
                self.tokens_sold - token_amount,
            ),
            token_amount <= self.tokens_sold ==> sale_fee_fits(*market_cap_at, self.tokens_sold, token_amount),
        ensures
            self.graduated ==> r == Err::<SellQuote, ErrorCode>(ErrorCode::AlreadyGraduated),
            !self.graduated && token_amount == 0 ==> r == Err::<SellQuote, ErrorCode>(
                ErrorCode::InvalidAmount,
            ),
            !self.graduated && token_amount > 0 && self.tokens_sold < token_amount ==> r == Err::<
                SellQuote,
                ErrorCode,
            >(ErrorCode::InsufficientTokensSold),
            !self.graduated && 0 < token_amount <= self.tokens_sold ==> exists|value: u64|
                is_trade_result(
                    *market_cap_at,
                    self.tokens_sold,
                    (self.tokens_sold - token_amount) as u64,
                    token_amount,
                    value,
                ) && r == sell_quote_from(token_amount, value, min_sol_out, vault_lamports),
            r is Ok && self.wf() ==> is_trade_value(
                *market_cap_at,
                self.tokens_sold,
                (self.tokens_sold - token_amount) as u64,
                token_amount,
                r->Ok_0.sol_to_return as int,
            ),
    {
        if self.graduated {
            return Err(ErrorCode::AlreadyGraduated);
        }
        if !(token_amount > 0) {
            return Err(ErrorCode::InvalidAmount);
        }
        if !(self.tokens_sold >= token_amount) {
            return Err(ErrorCode::InsufficientTokensSold);
        }
        let sol_to_return = match self.calculate_sell_return(token_amount, market_cap_at) {
            Ok(value) => value,
            Err(e) => return Err(e),
        };
        let result = if !(sol_to_return >= min_sol_out) {
            Err(ErrorCode::SlippageExceeded)
        } else {
            let total_fee = sol_to_return * TRADE_FEE_BPS / BPS_DENOMINATOR;
            let fees = fees_with_total(sol_to_return, total_fee);
            if !(vault_lamports >= sol_to_return) {
                Err(ErrorCode::VaultInsufficientSol)
            } else {
                Ok(SellQuote { token_amount, sol_to_return, fees })
            }
        };
        assert(is_trade_result(
            *market_cap_at,
            self.tokens_sold,
            (self.tokens_sold - token_amount) as u64,
            token_amount,
            sol_to_return,
        ) && result == sell_quote_from(token_amount, sol_to_return, min_sol_out, vault_lamports));
        result
    }

    /// Records a paid sale: the tokens return to the curve and the lamports that
    /// left the SOL vault are taken off what the curve has raised.
    pub fn settle_sell<F: Fn(u64) -> u64>(
        &mut self,
        quote: &SellQuote,
        mint: Address,
        seller: Address,
        market_cap_at: &F,
    ) -> (r: BondingCurveTradeEvent)
        requires
            curve_callable(*market_cap_at),
            quote.token_amount <= old(self).tokens_sold,
            quote.sol_to_return <= old(self).sol_raised,
        ensures
            final(self).tokens_sold == old(self).tokens_sold - quote.token_amount,
            final(self).sol_raised == old(self).sol_raised - quote.sol_to_return,
            final(self).graduated == old(self).graduated,
            final(self).migrated == old(self).migrated,
            final(self).mint == old(self).mint,
            final(self).authority == old(self).authority,
            final(self).token_account == old(self).token_account,
            final(self).sol_vault == old(self).sol_vault,
            final(self).creator == old(self).creator,
            final(self).total_supply == old(self).total_supply,
            old(self).wf() ==> final(self).wf(),
            old(self).migration_consistent() ==> final(self).migration_consistent(),
            final(self).tokens_sold == 0 ==> r.market_cap == START_MARKET_CAP_SOL && r.new_token_price
                == token_price_at(START_MARKET_CAP_SOL as int),
            final(self).tokens_sold != 0 ==> is_market_cap(*market_cap_at, final(self).tokens_sold, r.market_cap)
                && exists|c: u64|
                is_market_cap(*market_cap_at, final(self).tokens_sold, c) && r.new_token_price
                    == token_price_at(c as int),
            r.trade_type == 1,
            r.mint_address == mint,
            r.user == seller,
            r.sol_amount == quote.sol_to_return,
            r.token_amount == quote.token_amount,
    {
        self.tokens_sold = self.tokens_sold - quote.token_amount;
        self.sol_raised = self.sol_raised - quote.sol_to_return;
        let current_market_cap = self.calculate_current_market_cap(market_cap_at);
        BondingCurveTradeEvent {
            trade_type: 1,
            mint_address: mint,
            user: seller,
            sol_amount: quote.sol_to_return,
            token_amount: quote.token_amount,
            new_token_price: self.get_current_token_price(market_cap_at),
            market_cap: current_market_cap,
        }
    }

    /// Marks a graduated curve as migrated to the outside pool; refused when it
    /// was migrated already or has not graduated.
    pub fn migrate_vault(&mut self) -> (r: Result<(), ErrorCode>)
        ensures
            old(self).migrated ==> r == Err::<(), ErrorCode>(ErrorCode::AlreadyMigrated),
            !old(self).migrated && !old(self).graduated ==> r == Err::<(), ErrorCode>(
                ErrorCode::NotGraduated,
            ),
            r is Err ==> *final(self) == *old(self),
            r is Ok ==> *final(self) == (BondingCurveVault { migrated: true, ..*old(self) }),
            r is Ok <==> !old(self).migrated && old(self).graduated,
            old(self).wf() ==> final(self).wf(),
            old(self).migration_consistent() ==> final(self).migration_consistent(),
    {
        if self.migrated {
            return Err(ErrorCode::AlreadyMigrated);
        }
        if !self.graduated {
            return Err(ErrorCode::NotGraduated);
        }
        self.migrated = true;
        Ok(())
    }
}

} // verus!

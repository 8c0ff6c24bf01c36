use notty_smart_contract::address::Address;
use notty_smart_contract::constants::{END_MARKET_CAP_SOL, START_MARKET_CAP_SOL, TOTAL_SUPPLY};
use notty_smart_contract::error::ErrorCode;
use notty_smart_contract::events::{BondingCurveGraduatedEvent, BondingCurveTradeEvent};
use notty_smart_contract::trade::{BuyQuote, SellQuote, TradeFees};
use notty_smart_contract::vault::BondingCurveVault;

fn market_cap_at_supply(supply: u64) -> u64 {
    if supply == 0 {
        return START_MARKET_CAP_SOL;
    }
    let progress = (supply as f64) / (TOTAL_SUPPLY as f64);
    let price_range = END_MARKET_CAP_SOL - START_MARKET_CAP_SOL;
    START_MARKET_CAP_SOL + ((price_range as f64) * progress) as u64
}

const MINT: Address = Address { bytes: [1; 32] };
const TRADER: Address = Address { bytes: [9; 32] };

fn vault(tokens_sold: u64, sol_raised: u64) -> BondingCurveVault {
    BondingCurveVault {
        mint: MINT,
        authority: Address { bytes: [2; 32] },
        token_account: Address { bytes: [3; 32] },
        sol_vault: Address { bytes: [4; 32] },
        creator: Address { bytes: [5; 32] },
        total_supply: TOTAL_SUPPLY,
        tokens_sold,
        sol_raised,
        graduated: false,
        migrated: false,
    }
}

#[test]
fn fee_split_of_a_million_lamports() {
    assert_eq!(
        TradeFees::split(1_000_000),
        TradeFees { total_fee: 20_000, creator_fee: 10_000, platform_fee: 10_000, net_amount: 980_000 }
    );
}

#[test]
fn fee_split_gives_the_odd_lamport_to_the_platform() {
    let fees = TradeFees::split(150);
    assert_eq!(fees, TradeFees { total_fee: 3, creator_fee: 1, platform_fee: 2, net_amount: 147 });
    assert_eq!(fees.creator_fee + fees.platform_fee + fees.net_amount, 150);
}

#[test]
fn fee_split_of_small_trades_is_free() {
    assert_eq!(TradeFees::split(49), TradeFees { total_fee: 0, creator_fee: 0, platform_fee: 0, net_amount: 49 });
    assert_eq!(TradeFees::split(0), TradeFees { total_fee: 0, creator_fee: 0, platform_fee: 0, net_amount: 0 });
}

#[test]
fn fee_split_conserves_every_lamport() {
    for gross in [0u64, 1, 49, 50, 99, 12_345, 55_450_000, u64::MAX] {
        let fees = TradeFees::split(gross);
        assert_eq!(fees.creator_fee + fees.platform_fee, fees.total_fee);
        assert_eq!(fees.total_fee + fees.net_amount, gross);
        assert_eq!(fees.total_fee, gross / 50);
    }
}

#[test]
fn quote_buy_from_halfway() {
    let quote = vault(TOTAL_SUPPLY / 2, 0).quote_buy(1_000_000, 1, 1_000_000_000, &market_cap_at_supply);
    assert_eq!(
        quote,
        Ok(BuyQuote {
            tokens_to_buy: 100_000_000_000,
            actual_cost: 505,
            fees: TradeFees { total_fee: 10, creator_fee: 5, platform_fee: 5, net_amount: 495 },
        })
    );
}

#[test]
fn quote_buy_on_graduated_curve_is_refused() {
    let mut v = vault(TOTAL_SUPPLY / 2, 0);
    v.graduated = true;
    assert_eq!(v.quote_buy(1_000_000, 1, 1_000_000_000, &market_cap_at_supply), Err(ErrorCode::AlreadyGraduated));
}

#[test]
fn quote_buy_below_minimum_tokens_is_refused() {
    let v = vault(TOTAL_SUPPLY / 2, 0);
    assert_eq!(v.quote_buy(1_000_000, 100_000_000_001, 1_000_000_000, &market_cap_at_supply), Err(ErrorCode::SlippageExceeded));
    assert!(v.quote_buy(1_000_000, 100_000_000_000, 1_000_000_000, &market_cap_at_supply).is_ok());
}

#[test]
fn quote_buy_beyond_buyer_balance_is_refused() {
    let v = vault(TOTAL_SUPPLY / 2, 0);
    assert_eq!(v.quote_buy(1_000_000, 1, 504, &market_cap_at_supply), Err(ErrorCode::InsufficientFunds));
    assert!(v.quote_buy(1_000_000, 1, 505, &market_cap_at_supply).is_ok());
}

#[test]
fn quote_buy_on_sold_out_curve_is_refused() {
    assert_eq!(vault(TOTAL_SUPPLY, 0).quote_buy(1_000_000, 1, 1_000_000_000, &market_cap_at_supply), Err(ErrorCode::SoldOut));
}

#[test]
fn quote_buy_passes_on_the_search_refusal() {
    let dear = |_supply: u64| u64::MAX / 4;
    assert_eq!(vault(0, 0).quote_buy(10, 1, 1_000_000_000, &dear), Err(ErrorCode::InsufficientFunds));
}

#[test]
fn settle_buy_records_the_trade() {
    let mut v = vault(TOTAL_SUPPLY / 2, 2_500_000);
    let quote = v.quote_buy(1_000_000, 1, 1_000_000_000, &market_cap_at_supply).unwrap();
    let outcome = v.settle_buy(&quote, MINT, TRADER, &market_cap_at_supply);
    assert_eq!(v.tokens_sold, TOTAL_SUPPLY / 2 + 100_000_000_000);
    assert_eq!(v.sol_raised, 2_500_495);
    assert!(!v.graduated);
    assert_eq!(outcome.graduation, None);
    assert_eq!(
        outcome.trade,
        BondingCurveTradeEvent {
            trade_type: 0,
            mint_address: MINT,
            user: TRADER,
            sol_amount: 505,
            token_amount: 100_000_000_000,
            new_token_price: 5,
            market_cap: 505_000_990,
        }
    );
}

#[test]
fn buying_the_last_token_graduates_the_curve() {
    let mut v = vault(TOTAL_SUPPLY - 1, 7_000);
    let quote = v.quote_buy(1_000_000, 1, 1_000_000_000, &market_cap_at_supply).unwrap();
    assert_eq!(quote.tokens_to_buy, 1);
    assert_eq!(quote.actual_cost, 0);
    let outcome = v.settle_buy(&quote, MINT, TRADER, &market_cap_at_supply);
    assert!(v.graduated);
    assert_eq!(v.tokens_sold, TOTAL_SUPPLY);
    assert_eq!(outcome.trade.market_cap, END_MARKET_CAP_SOL);
    assert_eq!(outcome.trade.new_token_price, 10);
    assert_eq!(
        outcome.graduation,
        Some(BondingCurveGraduatedEvent {
            mint: MINT,
            final_market_cap: END_MARKET_CAP_SOL,
            total_sol_raised: 7_000,
            tokens_sold: TOTAL_SUPPLY,
        })
    );
    assert_eq!(v.quote_buy(1_000_000, 1, 1_000_000_000, &market_cap_at_supply), Err(ErrorCode::AlreadyGraduated));
}

#[test]
fn settle_buy_on_graduated_curve_reports_no_new_graduation() {
    let mut v = vault(TOTAL_SUPPLY - 1, 0);
    v.graduated = true;
    let quote = BuyQuote { tokens_to_buy: 1, actual_cost: 0, fees: TradeFees::split(0) };
    let outcome = v.settle_buy(&quote, MINT, TRADER, &market_cap_at_supply);
    assert!(v.graduated);
    assert_eq!(outcome.graduation, None);
}

#[test]
fn quote_sell_from_halfway() {
    let quote = vault(TOTAL_SUPPLY / 2, 0).quote_sell(1_000_000_000_000_000, 0, 1_000_000_000, &market_cap_at_supply);
    assert_eq!(
        quote,
        Ok(SellQuote {
            token_amount: 1_000_000_000_000_000,
            sol_to_return: 5_000_500,
            fees: TradeFees { total_fee: 100_010, creator_fee: 50_005, platform_fee: 50_005, net_amount: 4_900_490 },
        })
    );
}

#[test]
fn quote_sell_refusals() {
    let v = vault(TOTAL_SUPPLY / 2, 0);
    let mut graduated = v;
    graduated.graduated = true;
    assert_eq!(graduated.quote_sell(10, 0, 1_000_000_000, &market_cap_at_supply), Err(ErrorCode::AlreadyGraduated));
    assert_eq!(v.quote_sell(0, 0, 1_000_000_000, &market_cap_at_supply), Err(ErrorCode::InvalidAmount));
    assert_eq!(vault(10, 0).quote_sell(11, 0, 1_000_000_000, &market_cap_at_supply), Err(ErrorCode::InsufficientTokensSold));
    assert_eq!(
        v.quote_sell(1_000_000_000_000_000, 5_000_501, 1_000_000_000, &market_cap_at_supply),
        Err(ErrorCode::SlippageExceeded)
    );
    assert_eq!(
        v.quote_sell(1_000_000_000_000_000, 0, 5_000_499, &market_cap_at_supply),
        Err(ErrorCode::VaultInsufficientSol)
    );
    assert!(v.quote_sell(1_000_000_000_000_000, 5_000_500, 5_000_500, &market_cap_at_supply).is_ok());
}

#[test]
fn settle_sell_records_the_trade() {
    let mut v = vault(TOTAL_SUPPLY / 2, 10_000_000);
    let quote = v.quote_sell(1_000_000_000_000_000, 0, 1_000_000_000, &market_cap_at_supply).unwrap();
    let event = v.settle_sell(&quote, MINT, TRADER, &market_cap_at_supply);
    assert_eq!(v.tokens_sold, TOTAL_SUPPLY / 2 - 1_000_000_000_000_000);
    assert_eq!(v.sol_raised, 4_999_500);
    assert!(!v.graduated);
    assert_eq!(
        event,
        BondingCurveTradeEvent {
            trade_type: 1,
            mint_address: MINT,
            user: TRADER,
            sol_amount: 5_000_500,
            token_amount: 1_000_000_000_000_000,
            new_token_price: 4,
            market_cap: 495_100_000,
        }
    );
}

#[test]
fn buy_then_sell_back_returns_the_cost_before_fees() {
    let amount = TOTAL_SUPPLY / 10;
    let mut v = vault(TOTAL_SUPPLY / 2, 100_000_000);
    let cost = v.calculate_buy_cost(amount, &market_cap_at_supply).unwrap();
    let quote = BuyQuote { tokens_to_buy: amount, actual_cost: cost, fees: TradeFees::split(cost) };
    v.settle_buy(&quote, MINT, TRADER, &market_cap_at_supply);
    let sale = v.quote_sell(amount, 0, u64::MAX, &market_cap_at_supply).unwrap();
    assert_eq!(sale.sol_to_return, cost);
    assert_eq!(sale.sol_to_return, 55_450_000);
}

#[test]
fn migration_only_after_graduation_and_only_once() {
    let mut v = vault(TOTAL_SUPPLY, 0);
    assert_eq!(v.migrate_vault(), Err(ErrorCode::NotGraduated));
    assert!(!v.migrated);
    v.graduated = true;
    assert_eq!(v.migrate_vault(), Ok(()));
    assert!(v.migrated);
    assert_eq!(v.migrate_vault(), Err(ErrorCode::AlreadyMigrated));
    assert!(v.migrated);
}

#[test]
fn graduated_curve_refuses_buys_whatever_its_supply_reads() {
    let mut v = vault(u64::MAX, 0);
    v.graduated = true;
    assert_eq!(v.quote_buy(1_000_000, 1, 1_000_000_000, &market_cap_at_supply), Err(ErrorCode::AlreadyGraduated));
}

#[test]
fn round_trip_after_fees_returns_no_more_than_paid() {
    let amount = TOTAL_SUPPLY / 10;
    let mut v = vault(TOTAL_SUPPLY / 2, 100_000_000);
    let cost = v.calculate_buy_cost(amount, &market_cap_at_supply).unwrap();
    let quote = BuyQuote { tokens_to_buy: amount, actual_cost: cost, fees: TradeFees::split(cost) };
    v.settle_buy(&quote, MINT, TRADER, &market_cap_at_supply);
    let sale = v.quote_sell(amount, 0, u64::MAX, &market_cap_at_supply).unwrap();
    assert!(sale.fees.net_amount <= cost);
    assert_eq!(sale.fees.net_amount, 54_341_000);
}

use vstd::prelude::*;

use crate::address::Address;

verus! {

/// Emitted once a bonding-curve token has been launched.
#[derive(Debug, PartialEq, Eq)]
pub struct BondingCurveTokenCreatedEvent {
    pub token_name: String,
    pub token_symbol: String,
    pub token_uri: String,
    pub mint_address: Address,
    pub creator: Address,
    pub decimals: u8,
    pub total_supply: u64,
    pub creation_fee_paid: u64,
    pub initial_liquidity: u64,
}

/// Emitted for every trade on a curve; `trade_type` is 0 for a buy, 1 for a sell.
#[derive(Clone, Copy, Debug, PartialEq, Eq)]
pub struct BondingCurveTradeEvent {
    pub trade_type: u8,
    pub mint_address: Address,
    pub user: Address,
    pub sol_amount: u64,
    pub token_amount: u64,
    pub new_token_price: u64,
    pub market_cap: u64,
}

/// Emitted when a curve reaches its graduation market cap.
#[derive(Clone, Copy, Debug, PartialEq, Eq)]
pub struct BondingCurveGraduatedEvent {
    pub mint: Address,
    pub final_market_cap: u64,
    pub total_sol_raised: u64,
    pub tokens_sold: u64,
}

/// Emitted when the program's global state is set up.
#[derive(Clone, Copy, Debug, PartialEq, Eq)]
pub struct ProgramInitializedEvent {
    pub admin: Address,
    pub fee_vault: Address,
}

/// Emitted when the admin hands the program over to a new admin.
#[derive(Clone, Copy, Debug, PartialEq, Eq)]
pub struct AdminUpdatedEvent {
    pub old_admin: Address,
    pub new_admin: Address,
}

/// Emitted when the admin withdraws collected fees.
#[derive(Clone, Copy, Debug, PartialEq, Eq)]
pub struct FeesWithdrawnEvent {
    pub admin: Address,
    pub amount: u64,
    pub fee_vault_remaining: u64,
}

} // verus!

use vstd::prelude::*;

verus! {

/// Number of base units minted for every bonding-curve token (9 decimals).
pub const TOTAL_SUPPLY: u64 = 100_000_000_000_000_000;

/// Market capitalisation, in lamports, at which every curve starts.
pub const START_MARKET_CAP_SOL: u64 = 10_000_000;

/// Market capitalisation, in lamports, at which a curve graduates.
pub const END_MARKET_CAP_SOL: u64 = 1_000_000_000;

/// Fee, in lamports, that a creator pays to launch a bonding-curve token.
pub const CREATION_FEE_SOL: u64 = 5_000_000;

/// Trading fee in basis points (2%), half to the platform and half to the creator.
pub const TRADE_FEE_BPS: u64 = 200;

/// Basis points in a whole.
pub const BPS_DENOMINATOR: u64 = 10_000;

/// Decimals of every token minted by the launchpad.
pub const TOKEN_DECIMALS: u8 = 9;

/// Scale of the quoted token price: lamports per 10^9 base units.
pub const PRICE_SCALE: u64 = 1_000_000_000;

/// Seed, with the mint, of the account that holds a curve's unsold tokens.
pub const TOKEN_VAULT_SEED: &'static str = "token_vault";

/// Seed, with the mint, of the account that holds a curve's lamports.
pub const SOL_VAULT_SEED: &'static str = "sol_vault";

/// Seed, with the mint, of the program address that holds the mint authority.
pub const MINT_AUTHORITY_SEED: &'static str = "mint_authority";

/// Seed, with the mint, of the program address that signs for the token vault.
pub const VAULT_AUTHORITY_SEED: &'static str = "authority";

/// Seed of the program address that collects fees.
pub const FEE_VAULT_SEED: &'static str = "fee_vault";

/// Seed of the program's global state account.
pub const GLOBAL_STATE_SEED: &'static str = "global_state";

/// Seed, with the mint, of a curve's state account.
pub const BONDING_VAULT_SEED: &'static str = "bonding_vault";

} // verus!

use vstd::prelude::*;
use vstd::string::StringSliceAdditionalSpecFns;

use crate::address::Address;
use crate::constants::{CREATION_FEE_SOL, MINT_AUTHORITY_SEED, TOKEN_DECIMALS, TOTAL_SUPPLY};
use crate::events::BondingCurveTokenCreatedEvent;
use crate::vault::BondingCurveVault;

verus! {

/// The program-derived address, and its bump seed, that Solana derives for the
/// seeds `[seed, key]` under `program_id`, or `None` when no bump seed gives an
/// address off the curve.
pub uninterp spec fn program_derived_address(seed: Seq<u8>, key: Seq<u8>, program_id: Seq<u8>) -> Option<(Seq<u8>, u8)>;

/// Calls `Pubkey::try_find_program_address` (anchor_lang's re-export of
/// solana-pubkey) with the two seeds `seed` and the bytes of `key`. The contract
/// only names the result: the same seeds and program give the same answer,
/// `None` included (no bump seed found, or a seed longer than 32 bytes).
#[verifier::external_body]
fn try_find_program_address(seed: &[u8], key: &Address, program_id: &Address) -> (r: Option<(Address, u8)>)
    ensures
        match r {
            Some((address, bump)) => program_derived_address(seed@, key@, program_id@) == Some((address@, bump)),
            None => program_derived_address(seed@, key@, program_id@) is None,
        },
{
    let program = anchor_lang::prelude::Pubkey::new_from_array(program_id.bytes);
    match anchor_lang::prelude::Pubkey::try_find_program_address(&[seed, &key.bytes], &program) {
        Some((address, bump)) => Some((Address { bytes: address.to_bytes() }, bump)),
        None => None,
    }
}

/// Everything a bonding-curve token launch does, in order: the creation fee the
/// creator pays into the fee vault, the program address that takes over the mint
/// authority, the supply minted into the token vault, the lamports moved from the
/// fee vault into the curve's SOL vault as initial liquidity, the new curve, and
/// the launch event.
#[derive(Debug, PartialEq, Eq)]
pub struct BondingCurveLaunch {
    pub creation_fee: u64,
    pub mint_authority: Address,
    pub mint_amount: u64,
    pub initial_liquidity: u64,
    pub vault: BondingCurveVault,
    pub event: BondingCurveTokenCreatedEvent,
}

/// The bytes of the seed that, with the mint, derives the mint authority.
pub open spec fn mint_authority_seed_bytes() -> Seq<u8> {
    MINT_AUTHORITY_SEED.spec_bytes()
}

/// Launches a bonding-curve token for `mint` under the program `program_id`;
/// `None` when no program address can be derived for the mint authority.
pub fn create_bonding_curve_token(
    program_id: &Address,
    creator: Address,
    mint: Address,
    token_vault: Address,
    sol_vault: Address,
    vault_authority: Address,
    token_name: String,
    token_symbol: String,
    token_uri: String,
) -> (launched: Option<BondingCurveLaunch>)
    ensures
        launched is None <==> program_derived_address(mint_authority_seed_bytes(), mint@, program_id@) is None,
        launched matches Some(r) ==> launch_is(
            r,
            *program_id,
            creator,
            mint,
            token_vault,
            sol_vault,
            vault_authority,
            token_name@,
            token_symbol@,
            token_uri@,
        ),
{
    let seed = MINT_AUTHORITY_SEED.as_bytes();
    let mint_authority = match try_find_program_address(seed, &mint, program_id) {
        Some((address, _)) => address,
        None => return None,
    };
    let initial_liquidity = CREATION_FEE_SOL / 2;
    let vault = BondingCurveVault {
        mint,
        token_account: token_vault,
        sol_vault,
        authority: vault_authority,
        creator,
        total_supply: TOTAL_SUPPLY,
        tokens_sold: 0,
        sol_raised: initial_liquidity,
        graduated: false,
        migrated: false,
    };
    let event = BondingCurveTokenCreatedEvent {
        token_name,
        token_symbol,
        token_uri,
        mint_address: mint,
        creator,
        decimals: TOKEN_DECIMALS,
        total_supply: TOTAL_SUPPLY,
        creation_fee_paid: CREATION_FEE_SOL,
        initial_liquidity,
    };
    Some(
        BondingCurveLaunch {
            creation_fee: CREATION_FEE_SOL,
            mint_authority,
            mint_amount: TOTAL_SUPPLY,
            initial_liquidity,
            vault,
            event,
        },
    )
}

/// What a launch of `mint` under `program_id` holds.
pub open spec fn launch_is(
    r: BondingCurveLaunch,
    program_id: Address,
    creator: Address,
    mint: Address,
    token_vault: Address,
    sol_vault: Address,
    vault_authority: Address,
    token_name: Seq<char>,
    token_symbol: Seq<char>,
    token_uri: Seq<char>,
) -> bool {
    &&& r.creation_fee == CREATION_FEE_SOL
    &&& program_derived_address(mint_authority_seed_bytes(), mint@, program_id@) matches Some((a, _))
        && a == r.mint_authority@
    &&& r.mint_amount == TOTAL_SUPPLY
    &&& r.initial_liquidity == CREATION_FEE_SOL / 2
    &&& r.vault == (BondingCurveVault {
        mint,
        token_account: token_vault,
        sol_vault,
        authority: vault_authority,
        creator,
        total_supply: TOTAL_SUPPLY,
        tokens_sold: 0,
        sol_raised: CREATION_FEE_SOL / 2,
        graduated: false,
        migrated: false,
    })
    &&& r.vault.wf()
    &&& r.vault.migration_consistent()
    &&& r.event.token_name@ == token_name
    &&& r.event.token_symbol@ == token_symbol
    &&& r.event.token_uri@ == token_uri
    &&& r.event.mint_address == mint
    &&& r.event.creator == creator
    &&& r.event.decimals == TOKEN_DECIMALS
    &&& r.event.total_supply == TOTAL_SUPPLY
    &&& r.event.creation_fee_paid == CREATION_FEE_SOL
    &&& r.event.initial_liquidity == CREATION_FEE_SOL / 2
}

} // verus!

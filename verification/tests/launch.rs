use anchor_lang::prelude::Pubkey;
use notty_smart_contract::address::Address;
use notty_smart_contract::constants::{CREATION_FEE_SOL, MINT_AUTHORITY_SEED, TOTAL_SUPPLY};
use notty_smart_contract::launch::create_bonding_curve_token;
use notty_smart_contract::vault::BondingCurveVault;

#[test]
fn launch_sets_up_the_curve() {
    let program_id = Address { bytes: [42; 32] };
    let creator = Address { bytes: [1; 32] };
    let mint = Address { bytes: [2; 32] };
    let token_vault = Address { bytes: [3; 32] };
    let sol_vault = Address { bytes: [4; 32] };
    let vault_authority = Address { bytes: [5; 32] };
    let launch = create_bonding_curve_token(
        &program_id,
        creator,
        mint,
        token_vault,
        sol_vault,
        vault_authority,
        "Notty".to_string(),
        "NTY".to_string(),
        "https://example.org/nty.json".to_string(),
    )
    .expect("a program address exists");
    assert_eq!(launch.creation_fee, 5_000_000);
    assert_eq!(launch.mint_amount, TOTAL_SUPPLY);
    assert_eq!(launch.initial_liquidity, 2_500_000);
    assert_eq!(
        launch.vault,
        BondingCurveVault {
            mint,
            authority: vault_authority,
            token_account: token_vault,
            sol_vault,
            creator,
            total_supply: TOTAL_SUPPLY,
            tokens_sold: 0,
            sol_raised: 2_500_000,
            graduated: false,
            migrated: false,
        }
    );
    assert_eq!(launch.event.token_name, "Notty");
    assert_eq!(launch.event.token_symbol, "NTY");
    assert_eq!(launch.event.token_uri, "https://example.org/nty.json");
    assert_eq!(launch.event.mint_address, mint);
    assert_eq!(launch.event.creator, creator);
    assert_eq!(launch.event.decimals, 9);
    assert_eq!(launch.event.total_supply, TOTAL_SUPPLY);
    assert_eq!(launch.event.creation_fee_paid, CREATION_FEE_SOL);
    assert_eq!(launch.event.initial_liquidity, 2_500_000);
}

#[test]
fn launch_hands_the_mint_to_the_program_address() {
    let program_id = Address { bytes: [42; 32] };
    let mint = Address { bytes: [2; 32] };
    let launch = create_bonding_curve_token(
        &program_id,
        Address { bytes: [1; 32] },
        mint,
        Address { bytes: [3; 32] },
        Address { bytes: [4; 32] },
        Address { bytes: [5; 32] },
        String::new(),
        String::new(),
        String::new(),
    )
    .expect("a program address exists");
    let (expected, _) = Pubkey::find_program_address(
        &[MINT_AUTHORITY_SEED.as_bytes(), &mint.bytes],
        &Pubkey::new_from_array(program_id.bytes),
    );
    assert_eq!(launch.mint_authority.bytes, expected.to_bytes());
    assert_ne!(launch.mint_authority, mint);
    assert_ne!(launch.mint_authority, program_id);
}

#[test]
fn launches_of_different_mints_get_different_authorities() {
    let program_id = Address { bytes: [42; 32] };
    let launch_for = |mint: Address| {
        create_bonding_curve_token(
            &program_id,
            Address { bytes: [1; 32] },
            mint,
            Address { bytes: [3; 32] },
            Address { bytes: [4; 32] },
            Address { bytes: [5; 32] },
            String::new(),
            String::new(),
            String::new(),
        )
        .expect("a program address exists")
        .mint_authority
    };
    assert_eq!(launch_for(Address { bytes: [2; 32] }), launch_for(Address { bytes: [2; 32] }));
    assert_ne!(launch_for(Address { bytes: [2; 32] }), launch_for(Address { bytes: [6; 32] }));
}

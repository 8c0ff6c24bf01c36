use vstd::prelude::*;

verus! {

/// Every way in which an instruction of the launchpad is refused.
#[derive(Clone, Copy, Debug, PartialEq, Eq, Structural)]
pub enum ErrorCode {
    InsufficientFunds,
    VaultInsufficientSol,
    NumericalOverflow,
    AlreadyMigrated,
    TargetNotReached,
    ExceedsSupply,
    SlippageExceeded,
    InvalidAmount,
    SoldOut,
    InsufficientTokensSold,
    AlreadyGraduated,
    NotGraduated,
    UnauthorizedAdmin,
    InsufficientFeeVaultBalance,
}

} // verus!

use vstd::prelude::*;

use crate::address::Address;
use crate::error::ErrorCode;
use crate::events::{AdminUpdatedEvent, FeesWithdrawnEvent, ProgramInitializedEvent};

verus! {

/// Program-wide state: who administers the program, and its counters.
#[derive(Clone, Copy, Debug, PartialEq, Eq)]
pub struct GlobalState {
    pub admin: Address,
    pub total_fees_collected: u64,
    pub total_tokens_created: u64,
}

impl GlobalState {
    /// Fresh global state administered by `admin`, with zeroed counters, and the
    /// event that announces it together with the fee vault.
    pub fn initialize(admin: Address, fee_vault: Address) -> (r: (GlobalState, ProgramInitializedEvent))
        ensures
            r.0 == (GlobalState { admin, total_fees_collected: 0, total_tokens_created: 0 }),
            r.1 == (ProgramInitializedEvent { admin, fee_vault }),
    {
        let state = GlobalState { admin, total_fees_collected: 0, total_tokens_created: 0 };
        (state, ProgramInitializedEvent { admin, fee_vault })
    }

    /// Hands the program over to `new_admin`; only the current admin may do so.
    pub fn update_admin(&mut self, current_admin: &Address, new_admin: Address) -> (r: Result<
        AdminUpdatedEvent,
        ErrorCode,
    >)
        ensures
            current_admin@ == old(self).admin@ ==> r == Ok::<AdminUpdatedEvent, ErrorCode>(
                AdminUpdatedEvent { old_admin: old(self).admin, new_admin },
            ) && *final(self) == (GlobalState { admin: new_admin, ..*old(self) }),
            current_admin@ != old(self).admin@ ==> r == Err::<AdminUpdatedEvent, ErrorCode>(
                ErrorCode::UnauthorizedAdmin,
            ) && *final(self) == *old(self),
    {
        if !current_admin.same_as(&self.admin) {
            return Err(ErrorCode::UnauthorizedAdmin);
        }
        let old_admin = self.admin;
        self.admin = new_admin;
        Ok(AdminUpdatedEvent { old_admin, new_admin })
    }

    /// Decides a withdrawal of `amount` lamports from the fee vault, which holds
    /// `fee_vault_lamports`: only the admin may withdraw, and not more than the
    /// vault holds.
    pub fn check_fee_withdrawal(&self, signer: &Address, fee_vault_lamports: u64, amount: u64) -> (r:
        Result<(), ErrorCode>)
        ensures
            signer@ != self.admin@ ==> r == Err::<(), ErrorCode>(ErrorCode::UnauthorizedAdmin),
            signer@ == self.admin@ && fee_vault_lamports < amount ==> r == Err::<(), ErrorCode>(
                ErrorCode::InsufficientFeeVaultBalance,
            ),
            signer@ == self.admin@ && fee_vault_lamports >= amount ==> r == Ok::<(), ErrorCode>(()),
    {
        if !signer.same_as(&self.admin) {
            return Err(ErrorCode::UnauthorizedAdmin);
        }
        if !(fee_vault_lamports >= amount) {
            return Err(ErrorCode::InsufficientFeeVaultBalance);
        }
        Ok(())
    }
}

/// The event of a fee withdrawal of `amount` lamports, reported against the fee
/// vault balance read once the transfer has been made: the balance it reports is
/// that reading less `amount`.
pub fn fees_withdrawn_event(admin: Address, amount: u64, fee_vault_lamports_after: u64) -> (r:
    FeesWithdrawnEvent)
    requires
        amount <= fee_vault_lamports_after,
    ensures
        r == (FeesWithdrawnEvent { admin, amount, fee_vault_remaining: (fee_vault_lamports_after - amount) as u64 }),
{
    FeesWithdrawnEvent { admin, amount, fee_vault_remaining: fee_vault_lamports_after - amount }
}

} // verus!

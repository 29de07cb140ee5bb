//! Authorization guard: pure checks run by every transition before any state
//! or fund mutation.
//!
//! Two guard styles share one interface shape. Most transitions are
//! authorized by identity: the caller must be a specific party recorded on
//! the escrow. The permissionless auto-release is instead authorized by
//! condition: anyone may invoke it, and eligibility comes from the configured
//! deadline against the clock.

use vstd::prelude::*;

use crate::errors::EscrowError;
use crate::state::{EscrowAccount, EscrowView, Operation};

verus! {

/// Which caller identities a transition admits, and the error reported to
/// everyone else.
pub open spec fn authorization_decision(op: Operation, escrow: EscrowView, caller: u64) -> Result<
    (),
    EscrowError,
> {
    match op {
        Operation::Fund | Operation::Release | Operation::Cancel => if caller == escrow.depositor {
            Ok(())
        } else {
            Err(EscrowError::UnauthorizedDepositor)
        },
        Operation::RaiseDispute => if caller == escrow.depositor || caller == escrow.beneficiary {
            Ok(())
        } else {
            Err(EscrowError::UnauthorizedParty)
        },
        Operation::ResolveDispute => if caller == escrow.arbiter {
            Ok(())
        } else {
            Err(EscrowError::UnauthorizedArbiter)
        },
        Operation::AutoRelease => Ok(()),
    }
}

/// Whether the permissionless auto-release is eligible: a deadline must be
/// configured, and the clock must have reached it.
pub open spec fn deadline_decision(escrow: EscrowView, now_slot: u64) -> Result<(), EscrowError> {
    if escrow.auto_release_slot == 0 {
        Err(EscrowError::AutoReleaseDisabled)
    } else if now_slot < escrow.auto_release_slot {
        Err(EscrowError::AutoReleaseNotReady)
    } else {
        Ok(())
    }
}

/// Authorization depends only on who the caller is and which parties the
/// record names — never on the record's phase, balances, deadline or
/// timestamps. A caller the guard rejects is rejected on every record naming
/// the same parties, eligible or not.
pub proof fn lemma_authorization_ignores_phase(
    op: Operation,
    e1: EscrowView,
    e2: EscrowView,
    caller: u64,
)
    requires
        e1.depositor == e2.depositor,
        e1.beneficiary == e2.beneficiary,
        e1.arbiter == e2.arbiter,
    ensures
        authorization_decision(op, e1, caller) == authorization_decision(op, e2, caller),
{
}

/// Executable companion of [`authorization_decision`].
pub fn check_authorization(op: Operation, escrow: &EscrowAccount, caller: u64) -> (r: Result<
    (),
    EscrowError,
>)
    ensures
        r == authorization_decision(op, escrow@, caller),
{
    match op {
        Operation::Fund | Operation::Release | Operation::Cancel => if caller == escrow.depositor {
            Ok(())
        } else {
            Err(EscrowError::UnauthorizedDepositor)
        },
        Operation::RaiseDispute => if caller == escrow.depositor || caller == escrow.beneficiary {
            Ok(())
        } else {
            Err(EscrowError::UnauthorizedParty)
        },
        Operation::ResolveDispute => if caller == escrow.arbiter {
            Ok(())
        } else {
            Err(EscrowError::UnauthorizedArbiter)
        },
        Operation::AutoRelease => Ok(()),
    }
}

/// Executable companion of [`deadline_decision`].
pub fn check_deadline(escrow: &EscrowAccount, now_slot: u64) -> (r: Result<(), EscrowError>)
    ensures
        r == deadline_decision(escrow@, now_slot),
{
    if escrow.auto_release_slot == 0 {
        Err(EscrowError::AutoReleaseDisabled)
    } else if now_slot < escrow.auto_release_slot {
        Err(EscrowError::AutoReleaseNotReady)
    } else {
        Ok(())
    }
}

} // verus!

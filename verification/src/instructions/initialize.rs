//! Initialize: create a new escrow record between a depositor and a
//! beneficiary, with a designated arbiter.

use vstd::prelude::*;

use crate::errors::EscrowError;
use crate::state::{EscrowAccount, EscrowStatus, EscrowView};

verus! {

/// Identities recorded at creation, resolved and authenticated by the host.
///
/// The host creates the custody vault with a zero balance, owned by the
/// vault authority it derives one-to-one from the new record's identity;
/// the record stores both identifiers.
pub struct InitializeEscrow {
    /// The authenticated caller, who becomes the depositor.
    pub depositor: u64,
    /// The party receiving funds on successful completion. Does not co-sign.
    pub beneficiary: u64,
    /// The party that may resolve a dispute. Does not co-sign.
    pub arbiter: u64,
    /// Identifier of the fungible asset to escrow.
    pub mint: u64,
    /// Identifier of the freshly created custody vault account.
    pub vault: u64,
    /// The derived, non-human signer that owns the vault.
    pub vault_authority: u64,
}

/// Outcome of creation: a zero amount is rejected before any record exists.
pub open spec fn initialize_decision(amount: u64) -> Result<(), EscrowError> {
    if amount == 0 {
        Err(EscrowError::InvalidAmount)
    } else {
        Ok(())
    }
}

/// The record creation commits: every identity as handed in, the agreed
/// amount, the `Created` phase, the optional auto-release deadline (absent
/// encoded as `0`), both timestamps at the current slot, and an empty
/// dispute reason.
pub open spec fn created_record(
    ctx: InitializeEscrow,
    escrow_id: u64,
    amount: u64,
    auto_release_slot: Option<u64>,
    now_slot: u64,
) -> EscrowView {
    EscrowView {
        escrow_id,
        depositor: ctx.depositor,
        beneficiary: ctx.beneficiary,
        arbiter: ctx.arbiter,
        mint: ctx.mint,
        vault: ctx.vault,
        vault_authority: ctx.vault_authority,
        amount,
        status: EscrowStatus::Created,
        auto_release_slot: match auto_release_slot {
            Some(slot) => slot,
            None => 0,
        },
        created_at_slot: now_slot,
        updated_at_slot: now_slot,
        dispute_reason: Seq::<char>::empty(),
    }
}

/// Create the escrow record, enforcing a strictly positive amount. The new
/// record is well formed, starts in the `Created` phase, and is consistent
/// with the zero-balance vault the host just created.
pub fn handler(
    ctx: &InitializeEscrow,
    escrow_id: u64,
    amount: u64,
    auto_release_slot: Option<u64>,
    now_slot: u64,
) -> (r: Result<EscrowAccount, EscrowError>)
    ensures
        r is Ok <==> initialize_decision(amount) is Ok,
        r is Err ==> r == Err::<EscrowAccount, EscrowError>(EscrowError::InvalidAmount) && amount
            == 0,
        r is Ok ==> {
            &&& r->Ok_0@ == created_record(*ctx, escrow_id, amount, auto_release_slot, now_slot)
            &&& r->Ok_0@.wf()
        },
{
    if amount == 0 {
        return Err(EscrowError::InvalidAmount);
    }
    let record = EscrowAccount {
        escrow_id,
        depositor: ctx.depositor,
        beneficiary: ctx.beneficiary,
        arbiter: ctx.arbiter,
        mint: ctx.mint,
        vault: ctx.vault,
        vault_authority: ctx.vault_authority,
        amount,
        status: EscrowStatus::Created,
        auto_release_slot: match auto_release_slot {
            Some(slot) => slot,
            None => 0,
        },
        created_at_slot: now_slot,
        updated_at_slot: now_slot,
        dispute_reason: String::new(),
    };
    proof {
        assert(record@ =~= created_record(*ctx, escrow_id, amount, auto_release_slot, now_slot));
    }
    Ok(record)
}

} // verus!

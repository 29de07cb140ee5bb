//! Auto-release: the permissionless crank. Anyone may invoke it; eligibility
//! comes entirely from the configured deadline against the clock.

use vstd::prelude::*;

use crate::auth;
use crate::errors::EscrowError;
use crate::ledger;
use crate::ledger::TokenAccount;
use crate::state::{
    source_allows, status_allows, status_can_step, vault_consistent, vault_wired, EscrowAccount,
    EscrowStatus, EscrowView, Operation,
};

verus! {

/// Accounts touched by the auto-release transition, resolved by the host.
pub struct AutoRelease {
    /// The authenticated caller. Any identity is accepted: the transition is
    /// a permissionless crank, gated by the deadline alone.
    pub cranker: u64,
    /// The escrow record being released.
    pub escrow: EscrowAccount,
    /// The custody vault named by the record.
    pub vault: TokenAccount,
    /// The beneficiary's token account, destination of the payout.
    pub beneficiary_token: TokenAccount,
}

impl AutoRelease {
    /// The record is well formed, the vault is the one the record names and
    /// is consistently funded for the record's phase, and the destination is
    /// the beneficiary's account in the escrowed asset.
    pub open spec fn accounts_wf(self) -> bool {
        &&& self.escrow@.wf()
        &&& vault_wired(self.escrow@, self.vault)
        &&& vault_consistent(self.escrow@, self.vault)
        &&& self.beneficiary_token.mint == self.escrow@.mint
        &&& self.beneficiary_token.owner == self.escrow@.beneficiary
    }
}

/// Outcome of the auto-release transition: the escrow must be funded, a
/// deadline must be configured, and the clock must have reached it. The
/// caller's identity plays no part.
pub open spec fn auto_release_decision(escrow: EscrowView, now_slot: u64) -> Result<
    (),
    EscrowError,
> {
    if !source_allows(Operation::AutoRelease, escrow.status) {
        Err(EscrowError::InvalidState)
    } else {
        auth::deadline_decision(escrow, now_slot)
    }
}

/// The crank succeeds exactly on a funded escrow whose deadline is
/// configured and has been reached; with no deadline it fails
/// `AutoReleaseDisabled`, and before the deadline it fails
/// `AutoReleaseNotReady`.
pub proof fn lemma_auto_release_gated_by_deadline(escrow: EscrowView, now_slot: u64)
    requires
        source_allows(Operation::AutoRelease, escrow.status),
    ensures
        escrow.auto_release_slot == 0 ==> auto_release_decision(escrow, now_slot) == Err::<
            (),
            EscrowError,
        >(EscrowError::AutoReleaseDisabled),
        escrow.auto_release_slot > 0 && now_slot < escrow.auto_release_slot
            ==> auto_release_decision(escrow, now_slot) == Err::<(), EscrowError>(
            EscrowError::AutoReleaseNotReady,
        ),
        escrow.auto_release_slot > 0 && now_slot >= escrow.auto_release_slot
            ==> auto_release_decision(escrow, now_slot) is Ok,
{
}

/// A committed auto-release walks one edge of the phase graph.
pub proof fn lemma_auto_release_steps_in_graph(escrow: EscrowView, now_slot: u64)
    requires
        auto_release_decision(escrow, now_slot) is Ok,
    ensures
        status_can_step(escrow.status, EscrowStatus::Released),
{
}

/// Once the crank has committed the `Released` phase, cranking again —
/// however late the clock — fails the phase check with `InvalidState`.
pub proof fn lemma_auto_release_not_repeatable(escrow: EscrowView, now_slot: u64, later_slot: u64)
    requires
        auto_release_decision(escrow, now_slot) is Ok,
    ensures
        auto_release_decision(escrow.with_status(EscrowStatus::Released, now_slot), later_slot)
            == Err::<(), EscrowError>(EscrowError::InvalidState),
{
}

/// Once the configured deadline slot has been reached, send the full vault
/// balance to the beneficiary and advance the record from `Funded` to
/// `Released`, whoever asked.
pub fn handler(ctx: &mut AutoRelease, now_slot: u64) -> (r: Result<(), EscrowError>)
    requires
        old(ctx).accounts_wf(),
        old(ctx).beneficiary_token.amount + old(ctx).vault.amount <= u64::MAX,
        now_slot >= old(ctx).escrow@.updated_at_slot,
    ensures
        r == auto_release_decision(old(ctx).escrow@, now_slot),
        r is Ok ==> {
            &&& final(ctx).escrow@ == old(ctx).escrow@.with_status(EscrowStatus::Released, now_slot)
            &&& final(ctx).vault == (TokenAccount { amount: 0, ..old(ctx).vault })
            &&& final(ctx).beneficiary_token == (TokenAccount {
                amount: (old(ctx).beneficiary_token.amount + old(ctx).escrow@.amount) as u64,
                ..old(ctx).beneficiary_token
            })
            &&& final(ctx).cranker == old(ctx).cranker
            &&& final(ctx).accounts_wf()
        },
        r is Err ==> *final(ctx) == *old(ctx),
{
    if !status_allows(Operation::AutoRelease, ctx.escrow.status) {
        return Err(EscrowError::InvalidState);
    }
    match auth::check_deadline(&ctx.escrow, now_slot) {
        Err(e) => {
            return Err(e);
        },
        Ok(()) => {},
    }
    let amount: u64 = ctx.vault.amount;
    let authority: u64 = ctx.escrow.vault_authority;
    match ledger::transfer(&mut ctx.vault, &mut ctx.beneficiary_token, authority, amount) {
        Err(e) => {
            return Err(e);
        },
        Ok(()) => {},
    }
    ctx.escrow.status = EscrowStatus::Released;
    ctx.escrow.updated_at_slot = now_slot;
    Ok(())
}

} // verus!

//! Cancel: the depositor withdraws from a pre-dispute, pre-release escrow,
//! recovering whatever the vault holds.

use vstd::prelude::*;

use crate::auth;
use crate::errors::EscrowError;
use crate::ledger;
use crate::ledger::TokenAccount;
use crate::state::{
    source_allows, status_allows, status_can_step, vault_consistent, vault_wired, EscrowAccount,
    EscrowStatus, EscrowView, Operation,
};

verus! {

/// Accounts touched by the cancel transition, resolved by the host.
pub struct CancelEscrow {
    /// The authenticated caller; must be the depositor.
    pub depositor: u64,
    /// The escrow record being cancelled.
    pub escrow: EscrowAccount,
    /// The custody vault named by the record.
    pub vault: TokenAccount,
    /// The depositor's token account, destination of any refund.
    pub depositor_token: TokenAccount,
}

impl CancelEscrow {
    /// The record is well formed, the vault is the one the record names and
    /// is consistently funded for the record's phase, and the refund
    /// destination is the caller's account in the escrowed asset.
    pub open spec fn accounts_wf(self) -> bool {
        &&& self.escrow@.wf()
        &&& vault_wired(self.escrow@, self.vault)
        &&& vault_consistent(self.escrow@, self.vault)
        &&& self.depositor_token.mint == self.escrow@.mint
        &&& self.depositor_token.owner == self.depositor
    }
}

/// Outcome of the cancel transition for a given record and caller: only the
/// depositor may cancel, and only before a release or a dispute.
pub open spec fn cancel_decision(escrow: EscrowView, caller: u64) -> Result<(), EscrowError> {
    match auth::authorization_decision(Operation::Cancel, escrow, caller) {
        Err(e) => Err(e),
        Ok(()) => if !source_allows(Operation::Cancel, escrow.status) {
            Err(EscrowError::InvalidState)
        } else {
            Ok(())
        },
    }
}

/// Whatever the record's phase, deadline or balances, a caller other than
/// the depositor is always turned away from cancelling with
/// `UnauthorizedDepositor`.
pub proof fn lemma_cancel_requires_depositor(escrow: EscrowView, caller: u64)
    requires
        caller != escrow.depositor,
    ensures
        cancel_decision(escrow, caller) == Err::<(), EscrowError>(
            EscrowError::UnauthorizedDepositor,
        ),
{
}

/// A committed cancellation walks one edge of the phase graph.
pub proof fn lemma_cancel_steps_in_graph(escrow: EscrowView, caller: u64)
    requires
        cancel_decision(escrow, caller) is Ok,
    ensures
        status_can_step(escrow.status, EscrowStatus::Cancelled),
{
}

/// Once a cancellation has committed the `Cancelled` phase, invoking it
/// again — even by the very caller that succeeded — fails the phase check
/// with `InvalidState`.
pub proof fn lemma_cancel_not_repeatable(escrow: EscrowView, caller: u64, now_slot: u64)
    requires
        cancel_decision(escrow, caller) is Ok,
    ensures
        cancel_decision(escrow.with_status(EscrowStatus::Cancelled, now_slot), caller) == Err::<
            (),
            EscrowError,
        >(EscrowError::InvalidState),
{
}

/// Cancel the escrow: refund the full vault balance to the depositor if the
/// vault holds anything (the funded case), move nothing otherwise (the
/// unfunded case), and mark the record `Cancelled`.
pub fn handler(ctx: &mut CancelEscrow, now_slot: u64) -> (r: Result<(), EscrowError>)
    requires
        old(ctx).accounts_wf(),
        old(ctx).depositor_token.amount + old(ctx).vault.amount <= u64::MAX,
        now_slot >= old(ctx).escrow@.updated_at_slot,
    ensures
        r == cancel_decision(old(ctx).escrow@, old(ctx).depositor),
        r is Ok ==> {
            &&& final(ctx).escrow@ == old(ctx).escrow@.with_status(
                EscrowStatus::Cancelled,
                now_slot,
            )
            &&& final(ctx).vault == (TokenAccount { amount: 0, ..old(ctx).vault })
            &&& final(ctx).depositor_token == (TokenAccount {
                amount: (old(ctx).depositor_token.amount + old(ctx).vault.amount) as u64,
                ..old(ctx).depositor_token
            })
            &&& final(ctx).depositor == old(ctx).depositor
            &&& final(ctx).accounts_wf()
        },
        r is Err ==> *final(ctx) == *old(ctx),
{
    match auth::check_authorization(Operation::Cancel, &ctx.escrow, ctx.depositor) {
        Err(e) => {
            return Err(e);
        },
        Ok(()) => {},
    }
    if !status_allows(Operation::Cancel, ctx.escrow.status) {
        return Err(EscrowError::InvalidState);
    }
    let amount: u64 = ctx.vault.amount;
    if amount > 0 {
        let authority: u64 = ctx.escrow.vault_authority;
        match ledger::transfer(&mut ctx.vault, &mut ctx.depositor_token, authority, amount) {
            Err(e) => {
                return Err(e);
            },
            Ok(()) => {},
        }
    }
    ctx.escrow.status = EscrowStatus::Cancelled;
    ctx.escrow.updated_at_slot = now_slot;
    Ok(())
}

} // verus!

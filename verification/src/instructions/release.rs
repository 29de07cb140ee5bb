//! Release: the depositor voluntarily sends the custodied funds to the
//! beneficiary.

use vstd::prelude::*;

use crate::auth;
use crate::errors::EscrowError;
use crate::ledger;
use crate::ledger::TokenAccount;
use crate::state::{
    source_allows, status_allows, status_can_step, vault_consistent, vault_wired, EscrowAccount,
    EscrowStatus, EscrowView, Operation,
};

verus! {

/// Accounts touched by the release transition, resolved by the host.
pub struct ReleaseFunds {
    /// The authenticated caller; must be the depositor.
    pub depositor: u64,
    /// The escrow record being released.
    pub escrow: EscrowAccount,
    /// The custody vault named by the record.
    pub vault: TokenAccount,
    /// The beneficiary's token account, destination of the payout.
    pub beneficiary_token: TokenAccount,
}

impl ReleaseFunds {
    /// The record is well formed, the vault is the one the record names and
    /// is consistently funded for the record's phase, and the destination is
    /// the beneficiary's account in the escrowed asset.
    pub open spec fn accounts_wf(self) -> bool {
        &&& self.escrow@.wf()
        &&& vault_wired(self.escrow@, self.vault)
        &&& vault_consistent(self.escrow@, self.vault)
        &&& self.beneficiary_token.mint == self.escrow@.mint
        &&& self.beneficiary_token.owner == self.escrow@.beneficiary
    }
}

/// Outcome of the release transition for a given record and caller: only the
/// depositor may release, and only a funded, undisputed escrow can be
/// released.
pub open spec fn release_decision(escrow: EscrowView, caller: u64) -> Result<(), EscrowError> {
    match auth::authorization_decision(Operation::Release, escrow, caller) {
        Err(e) => Err(e),
        Ok(()) => if !source_allows(Operation::Release, escrow.status) {
            Err(EscrowError::InvalidState)
        } else {
            Ok(())
        },
    }
}

/// Whatever the record's phase, deadline or balances, a caller other than
/// the depositor is always turned away from releasing with
/// `UnauthorizedDepositor`.
pub proof fn lemma_release_requires_depositor(escrow: EscrowView, caller: u64)
    requires
        caller != escrow.depositor,
    ensures
        release_decision(escrow, caller) == Err::<(), EscrowError>(
            EscrowError::UnauthorizedDepositor,
        ),
{
}

/// A committed release walks one edge of the phase graph.
pub proof fn lemma_release_steps_in_graph(escrow: EscrowView, caller: u64)
    requires
        release_decision(escrow, caller) is Ok,
    ensures
        status_can_step(escrow.status, EscrowStatus::Released),
{
}

/// Once a release has committed the `Released` phase, invoking it again —
/// even by the very caller that succeeded — fails the phase check with
/// `InvalidState`.
pub proof fn lemma_release_not_repeatable(escrow: EscrowView, caller: u64, now_slot: u64)
    requires
        release_decision(escrow, caller) is Ok,
    ensures
        release_decision(escrow.with_status(EscrowStatus::Released, now_slot), caller) == Err::<
            (),
            EscrowError,
        >(EscrowError::InvalidState),
{
}

/// Send the full vault balance to the beneficiary, authorized by the vault
/// authority, and advance the record from `Funded` to `Released`.
///
/// The host authenticates the caller and resolves the accounts; the clock
/// slot it supplies never runs backwards.
pub fn handler(ctx: &mut ReleaseFunds, now_slot: u64) -> (r: Result<(), EscrowError>)
    requires
        old(ctx).accounts_wf(),
        old(ctx).beneficiary_token.amount + old(ctx).vault.amount <= u64::MAX,
        now_slot >= old(ctx).escrow@.updated_at_slot,
    ensures
        r == release_decision(old(ctx).escrow@, old(ctx).depositor),
        r is Ok ==> {
            &&& final(ctx).escrow@ == old(ctx).escrow@.with_status(EscrowStatus::Released, now_slot)
            &&& final(ctx).vault == (TokenAccount { amount: 0, ..old(ctx).vault })
            &&& final(ctx).beneficiary_token == (TokenAccount {
                amount: (old(ctx).beneficiary_token.amount + old(ctx).escrow@.amount) as u64,
                ..old(ctx).beneficiary_token
            })
            &&& final(ctx).depositor == old(ctx).depositor
            &&& final(ctx).accounts_wf()
        },
        r is Err ==> *final(ctx) == *old(ctx),
{
    match auth::check_authorization(Operation::Release, &ctx.escrow, ctx.depositor) {
        Err(e) => {
            return Err(e);
        },
        Ok(()) => {},
    }
    if !status_allows(Operation::Release, ctx.escrow.status) {
        return Err(EscrowError::InvalidState);
    }
    let amount: u64 = ctx.vault.amount;
    let authority: u64 = ctx.escrow.vault_authority;
    match ledger::transfer(&mut ctx.vault, &mut ctx.beneficiary_token, authority, amount) {
        Err(e) => {
            return Err(e);
        },
        Ok(()) => {},
    }
    ctx.escrow.status = EscrowStatus::Released;
    ctx.escrow.updated_at_slot = now_slot;
    Ok(())
}

} // verus!

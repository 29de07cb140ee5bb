//! Disputes: either party may freeze a funded escrow, and the arbiter alone
//! settles it with a binary outcome.

use vstd::prelude::*;

use crate::auth;
use crate::errors::EscrowError;
use crate::ledger;
use crate::ledger::TokenAccount;
use crate::state::{
    committed_status, source_allows, status_allows, status_can_step, vault_consistent, vault_wired,
    EscrowAccount, EscrowStatus, EscrowView, Operation, MAX_DISPUTE_REASON_CHARS,
};

verus! {

/// Accounts touched when raising a dispute, resolved by the host.
pub struct RaiseDispute {
    /// The authenticated caller; must be the depositor or the beneficiary.
    pub party: u64,
    /// The escrow record being disputed.
    pub escrow: EscrowAccount,
}

impl RaiseDispute {
    /// The record is well formed.
    pub open spec fn accounts_wf(self) -> bool {
        self.escrow@.wf()
    }
}

/// Outcome of raising a dispute: the escrow must be funded, the caller must
/// be a party to it, and the reason must respect its character bound.
pub open spec fn raise_decision(escrow: EscrowView, caller: u64, reason: Seq<char>) -> Result<
    (),
    EscrowError,
> {
    if !source_allows(Operation::RaiseDispute, escrow.status) {
        Err(EscrowError::InvalidState)
    } else {
        match auth::authorization_decision(Operation::RaiseDispute, escrow, caller) {
            Err(e) => Err(e),
            Ok(()) => if reason.len() > MAX_DISPUTE_REASON_CHARS {
                Err(EscrowError::DisputeReasonTooLong)
            } else {
                Ok(())
            },
        }
    }
}

/// On a record whose phase admits a dispute, a caller who is neither the
/// depositor nor the beneficiary is always turned away with
/// `UnauthorizedParty`, whatever the reason given.
pub proof fn lemma_raise_requires_party(escrow: EscrowView, caller: u64, reason: Seq<char>)
    requires
        source_allows(Operation::RaiseDispute, escrow.status),
        caller != escrow.depositor,
        caller != escrow.beneficiary,
    ensures
        raise_decision(escrow, caller, reason) == Err::<(), EscrowError>(
            EscrowError::UnauthorizedParty,
        ),
{
}

/// A committed dispute walks one edge of the phase graph.
pub proof fn lemma_raise_steps_in_graph(escrow: EscrowView, caller: u64, reason: Seq<char>)
    requires
        raise_decision(escrow, caller, reason) is Ok,
    ensures
        status_can_step(escrow.status, EscrowStatus::Disputed),
{
}

/// Once a dispute has committed the `Disputed` phase, raising it again —
/// even by the very caller that succeeded — fails the phase check with
/// `InvalidState`.
pub proof fn lemma_raise_not_repeatable(
    escrow: EscrowView,
    caller: u64,
    reason: Seq<char>,
    now_slot: u64,
)
    requires
        raise_decision(escrow, caller, reason) is Ok,
    ensures
        raise_decision(escrow.with_dispute(reason, now_slot), caller, reason) == Err::<
            (),
            EscrowError,
        >(EscrowError::InvalidState),
{
}

/// Freeze a funded escrow in the `Disputed` phase, recording the reason.
/// No funds move; only the arbiter can settle the dispute afterwards.
pub fn raise_handler(ctx: &mut RaiseDispute, reason: String, now_slot: u64) -> (r: Result<
    (),
    EscrowError,
>)
    requires
        old(ctx).accounts_wf(),
        now_slot >= old(ctx).escrow@.updated_at_slot,
    ensures
        r == raise_decision(old(ctx).escrow@, old(ctx).party, reason@),
        r is Ok ==> {
            &&& final(ctx).escrow@ == old(ctx).escrow@.with_dispute(reason@, now_slot)
            &&& final(ctx).party == old(ctx).party
            &&& final(ctx).accounts_wf()
        },
        r is Err ==> *final(ctx) == *old(ctx),
{
    if !status_allows(Operation::RaiseDispute, ctx.escrow.status) {
        return Err(EscrowError::InvalidState);
    }
    match auth::check_authorization(Operation::RaiseDispute, &ctx.escrow, ctx.party) {
        Err(e) => {
            return Err(e);
        },
        Ok(()) => {},
    }
    if reason.as_str().unicode_len() > MAX_DISPUTE_REASON_CHARS {
        return Err(EscrowError::DisputeReasonTooLong);
    }
    ctx.escrow.status = EscrowStatus::Disputed;
    ctx.escrow.dispute_reason = reason;
    ctx.escrow.updated_at_slot = now_slot;
    Ok(())
}

/// Accounts touched when resolving a dispute, resolved by the host.
pub struct ResolveDispute {
    /// The authenticated caller; must be the arbiter.
    pub arbiter: u64,
    /// The disputed escrow record.
    pub escrow: EscrowAccount,
    /// The custody vault named by the record.
    pub vault: TokenAccount,
    /// The beneficiary's token account, paid if the outcome favors them.
    pub beneficiary_token: TokenAccount,
    /// The depositor's token account, refunded otherwise.
    pub depositor_token: TokenAccount,
}

impl ResolveDispute {
    /// The record is well formed, the vault is the one the record names and
    /// is consistently funded for the record's phase, and both possible
    /// destinations are the right parties' accounts in the escrowed asset.
    pub open spec fn accounts_wf(self) -> bool {
        &&& self.escrow@.wf()
        &&& vault_wired(self.escrow@, self.vault)
        &&& vault_consistent(self.escrow@, self.vault)
        &&& self.beneficiary_token.mint == self.escrow@.mint
        &&& self.beneficiary_token.owner == self.escrow@.beneficiary
        &&& self.depositor_token.mint == self.escrow@.mint
        &&& self.depositor_token.owner == self.escrow@.depositor
    }
}

/// Outcome of resolving a dispute: only the arbiter may resolve, and only a
/// disputed escrow can be resolved.
pub open spec fn resolve_decision(escrow: EscrowView, caller: u64) -> Result<(), EscrowError> {
    match auth::authorization_decision(Operation::ResolveDispute, escrow, caller) {
        Err(e) => Err(e),
        Ok(()) => if !source_allows(Operation::ResolveDispute, escrow.status) {
            Err(EscrowError::InvalidState)
        } else {
            Ok(())
        },
    }
}

/// Whatever the record's phase, deadline or balances, a caller other than
/// the arbiter is always turned away from resolving with
/// `UnauthorizedArbiter`.
pub proof fn lemma_resolve_requires_arbiter(escrow: EscrowView, caller: u64)
    requires
        caller != escrow.arbiter,
    ensures
        resolve_decision(escrow, caller) == Err::<(), EscrowError>(
            EscrowError::UnauthorizedArbiter,
        ),
{
}

/// A committed resolution walks one edge of the phase graph, whichever way
/// the arbiter decides.
pub proof fn lemma_resolve_steps_in_graph(escrow: EscrowView, caller: u64, to_beneficiary: bool)
    requires
        resolve_decision(escrow, caller) is Ok,
    ensures
        status_can_step(escrow.status, committed_status(Operation::ResolveDispute, to_beneficiary)),
{
}

/// Once a resolution has committed its terminal phase, resolving again —
/// even by the arbiter, with either outcome — fails the phase check with
/// `InvalidState`.
pub proof fn lemma_resolve_not_repeatable(
    escrow: EscrowView,
    caller: u64,
    to_beneficiary: bool,
    now_slot: u64,
)
    requires
        resolve_decision(escrow, caller) is Ok,
    ensures
        resolve_decision(
            escrow.with_status(committed_status(Operation::ResolveDispute, to_beneficiary), now_slot),
            caller,
        ) == Err::<(), EscrowError>(EscrowError::InvalidState),
{
}

/// Settle a disputed escrow with the arbiter's binary outcome: send the full
/// vault balance to the beneficiary and mark the record `Released`, or
/// refund the depositor and mark it `Cancelled`. The recorded dispute reason
/// is retained either way.
pub fn resolve_handler(ctx: &mut ResolveDispute, release_to_beneficiary: bool, now_slot: u64) -> (r:
    Result<(), EscrowError>)
    requires
        old(ctx).accounts_wf(),
        old(ctx).beneficiary_token.amount + old(ctx).vault.amount <= u64::MAX,
        old(ctx).depositor_token.amount + old(ctx).vault.amount <= u64::MAX,
        now_slot >= old(ctx).escrow@.updated_at_slot,
    ensures
        r == resolve_decision(old(ctx).escrow@, old(ctx).arbiter),
        r is Ok ==> {
            &&& final(ctx).escrow@ == old(ctx).escrow@.with_status(
                committed_status(Operation::ResolveDispute, release_to_beneficiary),
                now_slot,
            )
            &&& final(ctx).vault == (TokenAccount { amount: 0, ..old(ctx).vault })
            &&& release_to_beneficiary ==> {
                &&& final(ctx).beneficiary_token == (TokenAccount {
                    amount: (old(ctx).beneficiary_token.amount + old(ctx).escrow@.amount) as u64,
                    ..old(ctx).beneficiary_token
                })
                &&& final(ctx).depositor_token == old(ctx).depositor_token
            }
            &&& !release_to_beneficiary ==> {
                &&& final(ctx).depositor_token == (TokenAccount {
                    amount: (old(ctx).depositor_token.amount + old(ctx).escrow@.amount) as u64,
                    ..old(ctx).depositor_token
                })
                &&& final(ctx).beneficiary_token == old(ctx).beneficiary_token
            }
            &&& final(ctx).arbiter == old(ctx).arbiter
            &&& final(ctx).accounts_wf()
        },
        r is Err ==> *final(ctx) == *old(ctx),
{
    match auth::check_authorization(Operation::ResolveDispute, &ctx.escrow, ctx.arbiter) {
        Err(e) => {
            return Err(e);
        },
        Ok(()) => {},
    }
    if !status_allows(Operation::ResolveDispute, ctx.escrow.status) {
        return Err(EscrowError::InvalidState);
    }
    let amount: u64 = ctx.vault.amount;
    let authority: u64 = ctx.escrow.vault_authority;
    if release_to_beneficiary {
        match ledger::transfer(&mut ctx.vault, &mut ctx.beneficiary_token, authority, amount) {
            Err(e) => {
                return Err(e);
            },
            Ok(()) => {},
        }
        ctx.escrow.status = EscrowStatus::Released;
    } else {
        match ledger::transfer(&mut ctx.vault, &mut ctx.depositor_token, authority, amount) {
            Err(e) => {
                return Err(e);
            },
            Ok(()) => {},
        }
        ctx.escrow.status = EscrowStatus::Cancelled;
    }
    ctx.escrow.updated_at_slot = now_slot;
    Ok(())
}

} // verus!

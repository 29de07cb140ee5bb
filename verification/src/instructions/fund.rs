//! Fund: the depositor moves the agreed amount into the custody vault.

use vstd::prelude::*;

use crate::auth;
use crate::errors::EscrowError;
use crate::ledger;
use crate::ledger::TokenAccount;
use crate::state::{
    source_allows, status_allows, status_can_step, vault_consistent, vault_wired, EscrowAccount,
    EscrowStatus, EscrowView, Operation,
};

verus! {

/// Accounts touched by the funding transition, resolved by the host.
pub struct FundEscrow {
    /// The authenticated caller; must be the depositor.
    pub depositor: u64,
    /// The escrow record being funded.
    pub escrow: EscrowAccount,
    /// The depositor's own token account, source of the deposit.
    pub depositor_token: TokenAccount,
    /// The custody vault named by the record.
    pub vault: TokenAccount,
}

impl FundEscrow {
    /// The record is well formed, the vault is the one the record names and
    /// is consistently funded for the record's phase, and the source account
    /// is the caller's account in the escrowed asset.
    pub open spec fn accounts_wf(self) -> bool {
        &&& self.escrow@.wf()
        &&& vault_wired(self.escrow@, self.vault)
        &&& vault_consistent(self.escrow@, self.vault)
        &&& self.depositor_token.mint == self.escrow@.mint
        &&& self.depositor_token.owner == self.depositor
    }
}

/// Outcome of the funding transition for a given record, caller and
/// depositor balance: only the depositor may fund, only a freshly created
/// escrow accepts a deposit, and the depositor's account must cover the
/// agreed amount — the ledger refuses an uncovered move, and nothing is
/// committed.
pub open spec fn fund_decision(escrow: EscrowView, caller: u64, depositor_balance: u64) -> Result<
    (),
    EscrowError,
> {
    match auth::authorization_decision(Operation::Fund, escrow, caller) {
        Err(e) => Err(e),
        Ok(()) => if !source_allows(Operation::Fund, escrow.status) {
            Err(EscrowError::InvalidState)
        } else if depositor_balance < escrow.amount {
            Err(EscrowError::InsufficientVaultBalance)
        } else {
            Ok(())
        },
    }
}

/// Whatever the record's phase, deadline or balances, a caller other than
/// the depositor is always turned away from funding with
/// `UnauthorizedDepositor`.
pub proof fn lemma_fund_requires_depositor(escrow: EscrowView, caller: u64, depositor_balance: u64)
    requires
        caller != escrow.depositor,
    ensures
        fund_decision(escrow, caller, depositor_balance) == Err::<(), EscrowError>(
            EscrowError::UnauthorizedDepositor,
        ),
{
}

/// A committed funding walks one edge of the phase graph.
pub proof fn lemma_fund_steps_in_graph(escrow: EscrowView, caller: u64, depositor_balance: u64)
    requires
        fund_decision(escrow, caller, depositor_balance) is Ok,
    ensures
        status_can_step(escrow.status, EscrowStatus::Funded),
{
}

/// Once a funding has committed the `Funded` phase, invoking it again — even
/// by the very caller that succeeded, whatever their balance then holds —
/// fails the phase check with `InvalidState`.
pub proof fn lemma_fund_not_repeatable(
    escrow: EscrowView,
    caller: u64,
    depositor_balance: u64,
    later_balance: u64,
    now_slot: u64,
)
    requires
        fund_decision(escrow, caller, depositor_balance) is Ok,
    ensures
        fund_decision(escrow.with_status(EscrowStatus::Funded, now_slot), caller, later_balance)
            == Err::<(), EscrowError>(EscrowError::InvalidState),
{
}

/// Deposit exactly the agreed amount from the depositor's account into the
/// custody vault and advance the record from `Created` to `Funded`. A
/// deposit the depositor's account cannot cover is refused by the ledger
/// with `InsufficientVaultBalance`, and nothing is committed.
///
/// The host authenticates the caller and resolves the accounts; the clock
/// slot it supplies never runs backwards.
pub fn handler(ctx: &mut FundEscrow, now_slot: u64) -> (r: Result<(), EscrowError>)
    requires
        old(ctx).accounts_wf(),
        now_slot >= old(ctx).escrow@.updated_at_slot,
    ensures
        r == fund_decision(old(ctx).escrow@, old(ctx).depositor, old(ctx).depositor_token.amount),
        r is Ok ==> {
            &&& final(ctx).escrow@ == old(ctx).escrow@.with_status(EscrowStatus::Funded, now_slot)
            &&& final(ctx).vault == (TokenAccount {
                amount: old(ctx).escrow@.amount,
                ..old(ctx).vault
            })
            &&& final(ctx).depositor_token == (TokenAccount {
                amount: (old(ctx).depositor_token.amount - old(ctx).escrow@.amount) as u64,
                ..old(ctx).depositor_token
            })
            &&& final(ctx).depositor == old(ctx).depositor
            &&& final(ctx).accounts_wf()
        },
        r is Err ==> *final(ctx) == *old(ctx),
{
    match auth::check_authorization(Operation::Fund, &ctx.escrow, ctx.depositor) {
        Err(e) => {
            return Err(e);
        },
        Ok(()) => {},
    }
    if !status_allows(Operation::Fund, ctx.escrow.status) {
        return Err(EscrowError::InvalidState);
    }
    let amount: u64 = ctx.escrow.amount;
    match ledger::transfer(&mut ctx.depositor_token, &mut ctx.vault, ctx.depositor, amount) {
        Err(e) => {
            return Err(e);
        },
        Ok(()) => {},
    }
    ctx.escrow.status = EscrowStatus::Funded;
    ctx.escrow.updated_at_slot = now_slot;
    Ok(())
}

} // verus!

//! A custodial escrow engine.
//!
//! The engine holds a depositor's funds in trust inside a dedicated custody
//! vault, releases them to a beneficiary when the depositor confirms or a
//! configured deadline passes, and adjudicates disputes through a designated
//! arbiter. Its core is the escrow lifecycle state machine: every transition
//! enforces a precise authorization check, a precise phase precondition, and
//! the invariant that custodied value is always fully accounted for — never
//! duplicated, never released twice, never stuck.
//!
//! The engine is driven by a host that authenticates callers, resolves the
//! accounts a transition touches, performs the actual settlement mirrored by
//! the [`ledger`] model, and supplies the current slot of a monotonic clock.

pub mod auth;
pub mod errors;
pub mod instructions;
pub mod ledger;
pub mod state;

use vstd::prelude::*;

use crate::errors::EscrowError;
use crate::instructions::auto_release;
use crate::instructions::cancel;
use crate::instructions::dispute;
use crate::instructions::fund;
use crate::instructions::initialize;
use crate::instructions::release;
use crate::instructions::{
    AutoRelease, CancelEscrow, FundEscrow, InitializeEscrow, RaiseDispute, ReleaseFunds,
    ResolveDispute,
};
use crate::ledger::TokenAccount;
use crate::state::{committed_status, EscrowAccount, EscrowStatus, Operation};

verus! {

/// Initialize a new escrow between a depositor and a beneficiary.
/// Funds are locked until conditions are met or a dispute is resolved.
pub fn initialize_escrow(
    ctx: &InitializeEscrow,
    escrow_id: u64,
    amount: u64,
    auto_release_slot: Option<u64>,
    now_slot: u64,
) -> (r: Result<EscrowAccount, EscrowError>)
    ensures
        r is Ok <==> initialize::initialize_decision(amount) is Ok,
        r is Err ==> r == Err::<EscrowAccount, EscrowError>(EscrowError::InvalidAmount) && amount
            == 0,
        r is Ok ==> {
            &&& r->Ok_0@ == initialize::created_record(
                *ctx,
                escrow_id,
                amount,
                auto_release_slot,
                now_slot,
            )
            &&& r->Ok_0@.wf()
        },
{
    initialize::handler(ctx, escrow_id, amount, auto_release_slot, now_slot)
}

/// Depositor funds the escrow vault with the agreed amount. An uncovered
/// deposit is refused with `InsufficientVaultBalance` and commits nothing.
pub fn fund_escrow(ctx: &mut FundEscrow, now_slot: u64) -> (r: Result<(), EscrowError>)
    requires
        old(ctx).accounts_wf(),
        now_slot >= old(ctx).escrow@.updated_at_slot,
    ensures
        r == fund::fund_decision(
            old(ctx).escrow@,
            old(ctx).depositor,
            old(ctx).depositor_token.amount,
        ),
        r is Ok ==> {
            &&& final(ctx).escrow@ == old(ctx).escrow@.with_status(EscrowStatus::Funded, now_slot)
            &&& final(ctx).vault == (TokenAccount {
                amount: old(ctx).escrow@.amount,
                ..old(ctx).vault
            })
            &&& final(ctx).depositor_token == (TokenAccount {
                amount: (old(ctx).depositor_token.amount - old(ctx).escrow@.amount) as u64,
                ..old(ctx).depositor_token
            })
            &&& final(ctx).depositor == old(ctx).depositor
            &&& final(ctx).accounts_wf()
        },
        r is Err ==> *final(ctx) == *old(ctx),
{
    fund::handler(ctx, now_slot)
}

/// Depositor releases funds to the beneficiary (happy path).
pub fn release_funds(ctx: &mut ReleaseFunds, now_slot: u64) -> (r: Result<(), EscrowError>)
    requires
        old(ctx).accounts_wf(),
        old(ctx).beneficiary_token.amount + old(ctx).vault.amount <= u64::MAX,
        now_slot >= old(ctx).escrow@.updated_at_slot,
    ensures
        r == release::release_decision(old(ctx).escrow@, old(ctx).depositor),
        r is Ok ==> {
            &&& final(ctx).escrow@ == old(ctx).escrow@.with_status(EscrowStatus::Released, now_slot)
            &&& final(ctx).vault == (TokenAccount { amount: 0, ..old(ctx).vault })
            &&& final(ctx).beneficiary_token == (TokenAccount {
                amount: (old(ctx).beneficiary_token.amount + old(ctx).escrow@.amount) as u64,
                ..old(ctx).beneficiary_token
            })
            &&& final(ctx).depositor == old(ctx).depositor
            &&& final(ctx).accounts_wf()
        },
        r is Err ==> *final(ctx) == *old(ctx),
{
    release::handler(ctx, now_slot)
}

/// Either party can raise a dispute, freezing the escrow.
pub fn raise_dispute(ctx: &mut RaiseDispute, reason: String, now_slot: u64) -> (r: Result<
    (),
    EscrowError,
>)
    requires
        old(ctx).accounts_wf(),
        now_slot >= old(ctx).escrow@.updated_at_slot,
    ensures
        r == dispute::raise_decision(old(ctx).escrow@, old(ctx).party, reason@),
        r is Ok ==> {
            &&& final(ctx).escrow@ == old(ctx).escrow@.with_dispute(reason@, now_slot)
            &&& final(ctx).party == old(ctx).party
            &&& final(ctx).accounts_wf()
        },
        r is Err ==> *final(ctx) == *old(ctx),
{
    dispute::raise_handler(ctx, reason, now_slot)
}

/// Arbiter resolves the dispute, sending funds to the winner.
pub fn resolve_dispute(ctx: &mut ResolveDispute, release_to_beneficiary: bool, now_slot: u64) -> (r:
    Result<(), EscrowError>)
    requires
        old(ctx).accounts_wf(),
        old(ctx).beneficiary_token.amount + old(ctx).vault.amount <= u64::MAX,
        old(ctx).depositor_token.amount + old(ctx).vault.amount <= u64::MAX,
        now_slot >= old(ctx).escrow@.updated_at_slot,
    ensures
        r == dispute::resolve_decision(old(ctx).escrow@, old(ctx).arbiter),
        r is Ok ==> {
            &&& final(ctx).escrow@ == old(ctx).escrow@.with_status(
                committed_status(Operation::ResolveDispute, release_to_beneficiary),
                now_slot,
            )
            &&& final(ctx).vault == (TokenAccount { amount: 0, ..old(ctx).vault })
            &&& release_to_beneficiary ==> {
                &&& final(ctx).beneficiary_token == (TokenAccount {
                    amount: (old(ctx).beneficiary_token.amount + old(ctx).escrow@.amount) as u64,
                    ..old(ctx).beneficiary_token
                })
                &&& final(ctx).depositor_token == old(ctx).depositor_token
            }
            &&& !release_to_beneficiary ==> {
                &&& final(ctx).depositor_token == (TokenAccount {
                    amount: (old(ctx).depositor_token.amount + old(ctx).escrow@.amount) as u64,
                    ..old(ctx).depositor_token
                })
                &&& final(ctx).beneficiary_token == old(ctx).beneficiary_token
            }
            &&& final(ctx).arbiter == old(ctx).arbiter
            &&& final(ctx).accounts_wf()
        },
        r is Err ==> *final(ctx) == *old(ctx),
{
    dispute::resolve_handler(ctx, release_to_beneficiary, now_slot)
}

/// Cancel an unfunded or not-yet-released escrow, returning funds to the
/// depositor.
pub fn cancel_escrow(ctx: &mut CancelEscrow, now_slot: u64) -> (r: Result<(), EscrowError>)
    requires
        old(ctx).accounts_wf(),
        old(ctx).depositor_token.amount + old(ctx).vault.amount <= u64::MAX,
        now_slot >= old(ctx).escrow@.updated_at_slot,
    ensures
        r == cancel::cancel_decision(old(ctx).escrow@, old(ctx).depositor),
        r is Ok ==> {
            &&& final(ctx).escrow@ == old(ctx).escrow@.with_status(
                EscrowStatus::Cancelled,
                now_slot,
            )
            &&& final(ctx).vault == (TokenAccount { amount: 0, ..old(ctx).vault })
            &&& final(ctx).depositor_token == (TokenAccount {
                amount: (old(ctx).depositor_token.amount + old(ctx).vault.amount) as u64,
                ..old(ctx).depositor_token
            })
            &&& final(ctx).depositor == old(ctx).depositor
            &&& final(ctx).accounts_wf()
        },
        r is Err ==> *final(ctx) == *old(ctx),
{
    cancel::handler(ctx, now_slot)
}

/// Auto-release after the deadline slot (permissionless crank).
pub fn auto_release(ctx: &mut AutoRelease, now_slot: u64) -> (r: Result<(), EscrowError>)
    requires
        old(ctx).accounts_wf(),
        old(ctx).beneficiary_token.amount + old(ctx).vault.amount <= u64::MAX,
        now_slot >= old(ctx).escrow@.updated_at_slot,
    ensures
        r == auto_release::auto_release_decision(old(ctx).escrow@, now_slot),
        r is Ok ==> {
            &&& final(ctx).escrow@ == old(ctx).escrow@.with_status(EscrowStatus::Released, now_slot)
            &&& final(ctx).vault == (TokenAccount { amount: 0, ..old(ctx).vault })
            &&& final(ctx).beneficiary_token == (TokenAccount {
                amount: (old(ctx).beneficiary_token.amount + old(ctx).escrow@.amount) as u64,
                ..old(ctx).beneficiary_token
            })
            &&& final(ctx).cranker == old(ctx).cranker
            &&& final(ctx).accounts_wf()
        },
        r is Err ==> *final(ctx) == *old(ctx),
{
    auto_release::handler(ctx, now_slot)
}

} // verus!

//! Each guard of the escrow engine, exercised through an input it rejects.

use escrow_engine::errors::EscrowError;
use escrow_engine::instructions::{
    AutoRelease, CancelEscrow, FundEscrow, InitializeEscrow, RaiseDispute, ReleaseFunds,
    ResolveDispute,
};
use escrow_engine::ledger;
use escrow_engine::ledger::TokenAccount;
use escrow_engine::state::{EscrowAccount, EscrowStatus};
use escrow_engine::{
    auto_release, cancel_escrow, fund_escrow, initialize_escrow, raise_dispute, release_funds,
    resolve_dispute,
};

const DEPOSITOR: u64 = 1;
const BENEFICIARY: u64 = 2;
const ARBITER: u64 = 3;
const OUTSIDER: u64 = 9;
const MINT: u64 = 7;
const VAULT_ID: u64 = 40;
const VAULT_AUTHORITY: u64 = 50;

fn new_record(escrow_id: u64, amount: u64, deadline: Option<u64>) -> EscrowAccount {
    let ctx = InitializeEscrow {
        depositor: DEPOSITOR,
        beneficiary: BENEFICIARY,
        arbiter: ARBITER,
        mint: MINT,
        vault: VAULT_ID,
        vault_authority: VAULT_AUTHORITY,
    };
    initialize_escrow(&ctx, escrow_id, amount, deadline, 5).expect("creation succeeds")
}

fn funded_record(escrow_id: u64, amount: u64, deadline: Option<u64>) -> (EscrowAccount, TokenAccount) {
    let mut fund_ctx = FundEscrow {
        depositor: DEPOSITOR,
        escrow: new_record(escrow_id, amount, deadline),
        depositor_token: depositor_token(amount),
        vault: vault(0),
    };
    fund_escrow(&mut fund_ctx, 6).expect("funding succeeds");
    (fund_ctx.escrow, fund_ctx.vault)
}

fn vault(amount: u64) -> TokenAccount {
    TokenAccount { id: VAULT_ID, owner: VAULT_AUTHORITY, mint: MINT, amount }
}

fn depositor_token(amount: u64) -> TokenAccount {
    TokenAccount { id: 10, owner: DEPOSITOR, mint: MINT, amount }
}

fn beneficiary_token(amount: u64) -> TokenAccount {
    TokenAccount { id: 11, owner: BENEFICIARY, mint: MINT, amount }
}

#[test]
fn zero_amount_rejected_before_any_record_exists() {
    let ctx = InitializeEscrow {
        depositor: DEPOSITOR,
        beneficiary: BENEFICIARY,
        arbiter: ARBITER,
        mint: MINT,
        vault: VAULT_ID,
        vault_authority: VAULT_AUTHORITY,
    };
    assert_eq!(
        initialize_escrow(&ctx, 1, 0, None, 5).map(|record| record.escrow_id),
        Err(EscrowError::InvalidAmount)
    );
}

#[test]
fn wrong_phase_rejected_without_effect() {
    // releasing an unfunded escrow
    let mut release_ctx = ReleaseFunds {
        depositor: DEPOSITOR,
        escrow: new_record(2, 100, None),
        vault: vault(0),
        beneficiary_token: beneficiary_token(0),
    };
    assert_eq!(release_funds(&mut release_ctx, 6), Err(EscrowError::InvalidState));
    assert_eq!(release_ctx.escrow.status, EscrowStatus::Created);
    assert_eq!(release_ctx.vault.amount, 0);
    assert_eq!(release_ctx.beneficiary_token.amount, 0);

    // disputing an unfunded escrow
    let mut raise_ctx = RaiseDispute { party: BENEFICIARY, escrow: new_record(3, 100, None) };
    assert_eq!(
        raise_dispute(&mut raise_ctx, String::from("too early"), 6),
        Err(EscrowError::InvalidState)
    );
    assert_eq!(raise_ctx.escrow.status, EscrowStatus::Created);
    assert_eq!(raise_ctx.escrow.dispute_reason, "");

    // resolving an undisputed escrow
    let (escrow, vault_account) = funded_record(4, 100, None);
    let mut resolve_ctx = ResolveDispute {
        arbiter: ARBITER,
        escrow,
        vault: vault_account,
        beneficiary_token: beneficiary_token(0),
        depositor_token: depositor_token(0),
    };
    assert_eq!(resolve_dispute(&mut resolve_ctx, true, 7), Err(EscrowError::InvalidState));
    assert_eq!(resolve_ctx.escrow.status, EscrowStatus::Funded);
    assert_eq!(resolve_ctx.vault.amount, 100);

    // cancelling a disputed escrow
    let (escrow, vault_account) = funded_record(5, 100, None);
    let mut raise_ctx = RaiseDispute { party: DEPOSITOR, escrow };
    raise_dispute(&mut raise_ctx, String::from("contested"), 7).expect("dispute succeeds");
    let mut cancel_ctx = CancelEscrow {
        depositor: DEPOSITOR,
        escrow: raise_ctx.escrow,
        vault: vault_account,
        depositor_token: depositor_token(0),
    };
    assert_eq!(cancel_escrow(&mut cancel_ctx, 8), Err(EscrowError::InvalidState));
    assert_eq!(cancel_ctx.escrow.status, EscrowStatus::Disputed);
    assert_eq!(cancel_ctx.vault.amount, 100);
    assert_eq!(cancel_ctx.depositor_token.amount, 0);
}

#[test]
fn non_depositor_rejected_even_when_otherwise_eligible() {
    // fund, on a record in the right phase
    let mut fund_ctx = FundEscrow {
        depositor: OUTSIDER,
        escrow: new_record(6, 100, None),
        depositor_token: TokenAccount { id: 12, owner: OUTSIDER, mint: MINT, amount: 500 },
        vault: vault(0),
    };
    assert_eq!(fund_escrow(&mut fund_ctx, 6), Err(EscrowError::UnauthorizedDepositor));
    assert_eq!(fund_ctx.escrow.status, EscrowStatus::Created);
    assert_eq!(fund_ctx.vault.amount, 0);
    assert_eq!(fund_ctx.depositor_token.amount, 500);

    // release, on a funded record
    let (escrow, vault_account) = funded_record(7, 100, None);
    let mut release_ctx = ReleaseFunds {
        depositor: BENEFICIARY,
        escrow,
        vault: vault_account,
        beneficiary_token: beneficiary_token(0),
    };
    assert_eq!(release_funds(&mut release_ctx, 7), Err(EscrowError::UnauthorizedDepositor));
    assert_eq!(release_ctx.escrow.status, EscrowStatus::Funded);
    assert_eq!(release_ctx.vault.amount, 100);

    // cancel, on a funded record
    let (escrow, vault_account) = funded_record(8, 100, None);
    let mut cancel_ctx = CancelEscrow {
        depositor: OUTSIDER,
        escrow,
        vault: vault_account,
        depositor_token: TokenAccount { id: 12, owner: OUTSIDER, mint: MINT, amount: 0 },
    };
    assert_eq!(cancel_escrow(&mut cancel_ctx, 7), Err(EscrowError::UnauthorizedDepositor));
    assert_eq!(cancel_ctx.escrow.status, EscrowStatus::Funded);
    assert_eq!(cancel_ctx.vault.amount, 100);
}

#[test]
fn only_a_party_may_dispute_and_only_the_arbiter_may_resolve() {
    let (escrow, vault_account) = funded_record(9, 100, None);
    let mut raise_ctx = RaiseDispute { party: OUTSIDER, escrow };
    assert_eq!(
        raise_dispute(&mut raise_ctx, String::from("not mine"), 7),
        Err(EscrowError::UnauthorizedParty)
    );
    assert_eq!(raise_ctx.escrow.status, EscrowStatus::Funded);

    let mut raise_ctx = RaiseDispute { party: DEPOSITOR, escrow: raise_ctx.escrow };
    raise_dispute(&mut raise_ctx, String::from("contested"), 7).expect("dispute succeeds");
    let mut resolve_ctx = ResolveDispute {
        arbiter: DEPOSITOR,
        escrow: raise_ctx.escrow,
        vault: vault_account,
        beneficiary_token: beneficiary_token(0),
        depositor_token: depositor_token(0),
    };
    assert_eq!(
        resolve_dispute(&mut resolve_ctx, false, 8),
        Err(EscrowError::UnauthorizedArbiter)
    );
    assert_eq!(resolve_ctx.escrow.status, EscrowStatus::Disputed);
    assert_eq!(resolve_ctx.vault.amount, 100);
}

#[test]
fn dispute_reason_bounded_to_128_characters() {
    let (escrow, _) = funded_record(10, 100, None);
    let mut raise_ctx = RaiseDispute { party: DEPOSITOR, escrow };
    let long_reason = "x".repeat(129);
    assert_eq!(
        raise_dispute(&mut raise_ctx, long_reason, 7),
        Err(EscrowError::DisputeReasonTooLong)
    );
    assert_eq!(raise_ctx.escrow.status, EscrowStatus::Funded);
    assert_eq!(raise_ctx.escrow.dispute_reason, "");

    let exact_reason = "y".repeat(128);
    raise_dispute(&mut raise_ctx, exact_reason.clone(), 7).expect("128 characters are accepted");
    assert_eq!(raise_ctx.escrow.dispute_reason, exact_reason);
}

#[test]
fn auto_release_needs_a_configured_deadline() {
    let (escrow, vault_account) = funded_record(11, 100, None);
    let mut crank_ctx = AutoRelease {
        cranker: OUTSIDER,
        escrow,
        vault: vault_account,
        beneficiary_token: beneficiary_token(0),
    };
    assert_eq!(auto_release(&mut crank_ctx, 1_000_000), Err(EscrowError::AutoReleaseDisabled));
    assert_eq!(crank_ctx.escrow.status, EscrowStatus::Funded);
    assert_eq!(crank_ctx.vault.amount, 100);
}

#[test]
fn uncovered_deposit_rejected_without_effect() {
    let mut fund_ctx = FundEscrow {
        depositor: DEPOSITOR,
        escrow: new_record(15, 100, None),
        depositor_token: depositor_token(99),
        vault: vault(0),
    };
    assert_eq!(fund_escrow(&mut fund_ctx, 6), Err(EscrowError::InsufficientVaultBalance));
    assert_eq!(fund_ctx.escrow.status, EscrowStatus::Created);
    assert_eq!(fund_ctx.escrow.updated_at_slot, 5);
    assert_eq!(fund_ctx.vault.amount, 0);
    assert_eq!(fund_ctx.depositor_token.amount, 99);

    // once the account covers the amount, the same call succeeds
    fund_ctx.depositor_token.amount = 100;
    fund_escrow(&mut fund_ctx, 6).expect("covered deposit succeeds");
    assert_eq!(fund_ctx.escrow.status, EscrowStatus::Funded);
    assert_eq!(fund_ctx.vault.amount, 100);
    assert_eq!(fund_ctx.depositor_token.amount, 0);
}

#[test]
fn ledger_rejects_an_uncovered_move() {
    let mut from = vault(30);
    let mut to = beneficiary_token(5);
    assert_eq!(
        ledger::transfer(&mut from, &mut to, VAULT_AUTHORITY, 31),
        Err(EscrowError::InsufficientVaultBalance)
    );
    assert_eq!(from.amount, 30);
    assert_eq!(to.amount, 5);

    ledger::transfer(&mut from, &mut to, VAULT_AUTHORITY, 30).expect("covered move succeeds");
    assert_eq!(from.amount, 0);
    assert_eq!(to.amount, 35);
}

#[test]
fn freshly_created_and_funded_records_are_well_formed() {
    let record = new_record(12, 100, Some(1000));
    assert!(record.check_wf());

    let (funded, _) = funded_record(13, 100, None);
    assert!(funded.check_wf());

    // a hand-built record that breaks the dispute-reason bound is rejected
    let mut broken = new_record(14, 100, None);
    broken.dispute_reason = "z".repeat(129);
    assert!(!broken.check_wf());
}

#[test]
fn status_starts_created_and_labels_itself() {
    assert_eq!(EscrowStatus::default(), EscrowStatus::Created);
    assert_eq!(EscrowStatus::Created.label(), "Created");
    assert_eq!(EscrowStatus::Funded.label(), "Funded");
    assert_eq!(EscrowStatus::Disputed.label(), "Disputed");
    assert_eq!(EscrowStatus::Released.label(), "Released");
    assert_eq!(EscrowStatus::Cancelled.label(), "Cancelled");
}

#[test]
fn every_error_describes_itself() {
    assert_eq!(
        EscrowError::InvalidAmount.message(),
        "Escrow amount must be greater than zero"
    );
    assert_eq!(
        EscrowError::InvalidState.message(),
        "Escrow is not in the expected state for this operation"
    );
    assert_eq!(
        EscrowError::UnauthorizedDepositor.message(),
        "Only the depositor can perform this action"
    );
    assert_eq!(
        EscrowError::UnauthorizedArbiter.message(),
        "Only the arbiter can resolve disputes"
    );
    assert_eq!(
        EscrowError::UnauthorizedParty.message(),
        "Only a party to the escrow can raise a dispute"
    );
    assert_eq!(
        EscrowError::AutoReleaseNotReady.message(),
        "Auto-release slot has not been reached yet"
    );
    assert_eq!(
        EscrowError::AutoReleaseDisabled.message(),
        "Auto-release is not enabled for this escrow"
    );
    assert_eq!(
        EscrowError::DisputeReasonTooLong.message(),
        "Dispute reason is too long (max 128 characters)"
    );
    assert_eq!(
        EscrowError::InsufficientVaultBalance.message(),
        "Escrow vault balance is insufficient"
    );
}

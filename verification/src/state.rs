//! Durable state of one escrow and the transition graph over its phases.
//!
//! An [`EscrowAccount`] is the sole persistent entity: it records the three
//! principals, the custody vault, the agreed amount, the current phase and the
//! deadline for the permissionless auto-release. The phase graph of the
//! lifecycle is written down once, as data ([`status_can_step`],
//! [`source_allows`], [`committed_status`]), and every handler contract is
//! stated against it.
//!
//! Principals and accounts are identified by plain `u64` identities handed in
//! by the host, which resolves and authenticates the underlying addresses.

use vstd::prelude::*;

use crate::ledger::TokenAccount;

verus! {

/// Upper bound on the length of a dispute reason, in characters.
pub const MAX_DISPUTE_REASON_CHARS: usize = 128;

/// The phase of one escrow record.
#[derive(Clone, Copy, Debug, PartialEq, Eq, Structural)]
pub enum EscrowStatus {
    /// Escrow created, awaiting funding.
    Created,
    /// Funds deposited, awaiting release or dispute.
    Funded,
    /// Dispute raised, awaiting arbiter resolution.
    Disputed,
    /// Funds released to the beneficiary.
    Released,
    /// Funds returned to the depositor (cancelled or dispute lost).
    Cancelled,
}

impl Default for EscrowStatus {
    /// A fresh record starts in the `Created` phase.
    fn default() -> (r: Self)
        ensures
            r is Created,
    {
        EscrowStatus::Created
    }
}

impl EscrowStatus {
    /// The phase's name, for reporting.
    pub fn label(&self) -> (r: String)
        ensures
            *self is Created ==> r@ == "Created"@,
            *self is Funded ==> r@ == "Funded"@,
            *self is Disputed ==> r@ == "Disputed"@,
            *self is Released ==> r@ == "Released"@,
            *self is Cancelled ==> r@ == "Cancelled"@,
    {
        match self {
            EscrowStatus::Created => "Created".to_owned(),
            EscrowStatus::Funded => "Funded".to_owned(),
            EscrowStatus::Disputed => "Disputed".to_owned(),
            EscrowStatus::Released => "Released".to_owned(),
            EscrowStatus::Cancelled => "Cancelled".to_owned(),
        }
    }
}

/// The six transitions that mutate an existing record.
///
/// Record creation has no prior record to guard, so it is not listed here.
#[derive(Clone, Copy, Debug)]
pub enum Operation {
    Fund,
    Release,
    RaiseDispute,
    ResolveDispute,
    Cancel,
    AutoRelease,
}

/// The directed phase graph of the escrow lifecycle: `status_can_step(a, b)`
/// holds exactly when some transition commits a record in phase `a` into
/// phase `b`.
pub open spec fn status_can_step(from: EscrowStatus, to: EscrowStatus) -> bool {
    ||| (from is Created && to is Funded)
    ||| (from is Created && to is Cancelled)
    ||| (from is Funded && to is Released)
    ||| (from is Funded && to is Disputed)
    ||| (from is Funded && to is Cancelled)
    ||| (from is Disputed && to is Released)
    ||| (from is Disputed && to is Cancelled)
}

/// The source phases each transition requires of the record.
pub open spec fn source_allows(op: Operation, status: EscrowStatus) -> bool {
    match op {
        Operation::Fund => status is Created,
        Operation::Release => status is Funded,
        Operation::RaiseDispute => status is Funded,
        Operation::ResolveDispute => status is Disputed,
        Operation::Cancel => status is Created || status is Funded,
        Operation::AutoRelease => status is Funded,
    }
}

/// The phase a transition commits. Only dispute resolution branches, on the
/// arbiter's binary outcome `to_beneficiary`.
pub open spec fn committed_status(op: Operation, to_beneficiary: bool) -> EscrowStatus {
    match op {
        Operation::Fund => EscrowStatus::Funded,
        Operation::Release => EscrowStatus::Released,
        Operation::RaiseDispute => EscrowStatus::Disputed,
        Operation::ResolveDispute => if to_beneficiary {
            EscrowStatus::Released
        } else {
            EscrowStatus::Cancelled
        },
        Operation::Cancel => EscrowStatus::Cancelled,
        Operation::AutoRelease => EscrowStatus::Released,
    }
}

/// Position of a phase along the lifecycle; terminal phases share the last
/// position.
pub open spec fn status_rank(status: EscrowStatus) -> int {
    match status {
        EscrowStatus::Created => 0,
        EscrowStatus::Funded => 1,
        EscrowStatus::Disputed => 2,
        EscrowStatus::Released => 3,
        EscrowStatus::Cancelled => 3,
    }
}

/// The phase graph only ever moves forward: every edge strictly increases the
/// phase's rank, so no committed transition can return a record to an earlier
/// phase.
pub proof fn lemma_step_strictly_forward(from: EscrowStatus, to: EscrowStatus)
    requires
        status_can_step(from, to),
    ensures
        status_rank(from) < status_rank(to),
{
}

/// `Released` and `Cancelled` are terminal: no edge of the phase graph leaves
/// them, so a settled record can never be reopened.
pub proof fn lemma_terminal_phases_final(from: EscrowStatus, to: EscrowStatus)
    requires
        from is Released || from is Cancelled,
    ensures
        !status_can_step(from, to),
{
}

/// Every transition, applied to any source phase it accepts, commits a phase
/// reachable by one edge of the graph: the handlers can only walk the
/// lifecycle as drawn.
pub proof fn lemma_allowed_step_in_graph(op: Operation, status: EscrowStatus, to_beneficiary: bool)
    requires
        source_allows(op, status),
    ensures
        status_can_step(status, committed_status(op, to_beneficiary)),
{
}

/// No transition accepts the very phase it commits: once a transition has
/// committed, invoking it again fails the status precondition, so the second
/// attempt is rejected with `InvalidState` and moves nothing.
pub proof fn lemma_no_transition_repeats(op: Operation, to_beneficiary: bool)
    ensures
        !source_allows(op, committed_status(op, to_beneficiary)),
{
}

/// The durable record of one escrow agreement.
pub struct EscrowAccount {
    /// Unique escrow identifier, chosen by the depositor.
    pub escrow_id: u64,
    /// The party depositing funds.
    pub depositor: u64,
    /// The party receiving funds on successful completion.
    pub beneficiary: u64,
    /// The party that may resolve a dispute.
    pub arbiter: u64,
    /// Identifier of the fungible asset being escrowed.
    pub mint: u64,
    /// Identifier of the custody vault account.
    pub vault: u64,
    /// The derived, non-human signer that alone owns the vault and
    /// authorizes outbound moves from it.
    pub vault_authority: u64,
    /// Quantity expected to be deposited; fixed at creation.
    pub amount: u64,
    /// Current phase of the escrow.
    pub status: EscrowStatus,
    /// Slot from which auto-release is allowed; `0` means disabled.
    pub auto_release_slot: u64,
    /// Slot when the escrow was created.
    pub created_at_slot: u64,
    /// Slot when the escrow was last updated.
    pub updated_at_slot: u64,
    /// Reason given when a dispute was raised; empty until then.
    pub dispute_reason: String,
}

/// Mathematical model of an [`EscrowAccount`]: the same fields, with the
/// dispute reason abstracted to its character sequence.
#[verifier::ext_equal]
pub struct EscrowView {
    pub escrow_id: u64,
    pub depositor: u64,
    pub beneficiary: u64,
    pub arbiter: u64,
    pub mint: u64,
    pub vault: u64,
    pub vault_authority: u64,
    pub amount: u64,
    pub status: EscrowStatus,
    pub auto_release_slot: u64,
    pub created_at_slot: u64,
    pub updated_at_slot: u64,
    pub dispute_reason: Seq<char>,
}

impl View for EscrowAccount {
    type V = EscrowView;

    open spec fn view(&self) -> EscrowView {
        EscrowView {
            escrow_id: self.escrow_id,
            depositor: self.depositor,
            beneficiary: self.beneficiary,
            arbiter: self.arbiter,
            mint: self.mint,
            vault: self.vault,
            vault_authority: self.vault_authority,
            amount: self.amount,
            status: self.status,
            auto_release_slot: self.auto_release_slot,
            created_at_slot: self.created_at_slot,
            updated_at_slot: self.updated_at_slot,
            dispute_reason: self.dispute_reason@,
        }
    }
}

impl EscrowView {
    /// Well-formedness of a record: the amount is strictly positive, the
    /// dispute reason respects its bound and stays empty until a dispute is
    /// raised (it is not cleared on resolution), and the update timestamp
    /// never precedes creation.
    pub open spec fn wf(self) -> bool {
        &&& self.amount > 0
        &&& self.dispute_reason.len() <= MAX_DISPUTE_REASON_CHARS
        &&& (self.status is Created || self.status is Funded) ==> self.dispute_reason.len() == 0
        &&& self.created_at_slot <= self.updated_at_slot
    }

    /// The record after a transition commits phase `status` at `now_slot`,
    /// with every other field untouched.
    pub open spec fn with_status(self, status: EscrowStatus, now_slot: u64) -> EscrowView {
        EscrowView { status, updated_at_slot: now_slot, ..self }
    }

    /// The record after a dispute is raised at `now_slot` with `reason`.
    pub open spec fn with_dispute(self, reason: Seq<char>, now_slot: u64) -> EscrowView {
        EscrowView {
            status: EscrowStatus::Disputed,
            dispute_reason: reason,
            updated_at_slot: now_slot,
            ..self
        }
    }
}

impl EscrowAccount {
    /// Executable companion of [`EscrowView::wf`].
    pub fn check_wf(&self) -> (r: bool)
        ensures
            r == self@.wf(),
    {
        let reason_chars: usize = self.dispute_reason.as_str().unicode_len();
        let pre_dispute: bool = matches!(self.status, EscrowStatus::Created | EscrowStatus::Funded);
        self.amount > 0 && reason_chars <= MAX_DISPUTE_REASON_CHARS && (!pre_dispute
            || reason_chars == 0) && self.created_at_slot <= self.updated_at_slot
    }
}

/// The custody vault a record names: the vault account itself, holding the
/// escrowed asset, owned exclusively by the record's derived vault authority.
/// The host resolves the vault by the record's identity, so every handler
/// receives a vault satisfying this.
pub open spec fn vault_wired(escrow: EscrowView, vault: TokenAccount) -> bool {
    &&& vault.id == escrow.vault
    &&& vault.mint == escrow.mint
    &&& vault.owner == escrow.vault_authority
}

/// Full accounting of custodied value: the vault holds nothing before
/// funding, exactly the agreed amount while funds are in custody, and
/// nothing again once the escrow is settled. Every committed transition
/// preserves this.
pub open spec fn vault_consistent(escrow: EscrowView, vault: TokenAccount) -> bool {
    match escrow.status {
        EscrowStatus::Created => vault.amount == 0,
        EscrowStatus::Funded | EscrowStatus::Disputed => vault.amount == escrow.amount,
        EscrowStatus::Released | EscrowStatus::Cancelled => vault.amount == 0,
    }
}

/// Executable companion of [`source_allows`]: does the record's current phase
/// admit the transition?
pub fn status_allows(op: Operation, status: EscrowStatus) -> (r: bool)
    ensures
        r == source_allows(op, status),
{
    match op {
        Operation::Fund => matches!(status, EscrowStatus::Created),
        Operation::Release => matches!(status, EscrowStatus::Funded),
        Operation::RaiseDispute => matches!(status, EscrowStatus::Funded),
        Operation::ResolveDispute => matches!(status, EscrowStatus::Disputed),
        Operation::Cancel => matches!(status, EscrowStatus::Created | EscrowStatus::Funded),
        Operation::AutoRelease => matches!(status, EscrowStatus::Funded),
    }
}

} // verus!

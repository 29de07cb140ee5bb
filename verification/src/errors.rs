//! Error taxonomy shared by every escrow transition handler.
//!
//! Every failure is reported before any state or balance mutation, so each
//! variant identifies exactly which precondition was violated and the caller
//! can distinguish "wrong party" from "wrong phase" from "not yet eligible".

use vstd::prelude::*;

verus! {

/// The enumerated failure conditions of the escrow engine.
#[derive(Clone, Copy, Debug, PartialEq, Eq, Structural)]
pub enum EscrowError {
    /// Creation was attempted with a zero amount.
    InvalidAmount,
    /// The record's status does not match the required source state(s).
    InvalidState,
    /// Only the depositor can perform this action.
    UnauthorizedDepositor,
    /// Only the arbiter can resolve disputes.
    UnauthorizedArbiter,
    /// Only a party to the escrow can raise a dispute.
    UnauthorizedParty,
    /// Auto-release was attempted before the deadline slot.
    AutoReleaseNotReady,
    /// Auto-release was attempted on a record with no deadline configured.
    AutoReleaseDisabled,
    /// The dispute reason exceeds the 128 character bound.
    DisputeReasonTooLong,
    /// An outbound transfer would exceed the vault's actual holdings.
    InsufficientVaultBalance,
}

impl EscrowError {
    /// Human-readable description of the failure.
    pub fn message(&self) -> (r: String)
        ensures
            *self is InvalidAmount ==> r@ == "Escrow amount must be greater than zero"@,
            *self is InvalidState ==> r@ == "Escrow is not in the expected state for this operation"@,
            *self is UnauthorizedDepositor ==> r@ == "Only the depositor can perform this action"@,
            *self is UnauthorizedArbiter ==> r@ == "Only the arbiter can resolve disputes"@,
            *self is UnauthorizedParty ==> r@ == "Only a party to the escrow can raise a dispute"@,
            *self is AutoReleaseNotReady ==> r@ == "Auto-release slot has not been reached yet"@,
            *self is AutoReleaseDisabled ==> r@ == "Auto-release is not enabled for this escrow"@,
            *self is DisputeReasonTooLong ==> r@ == "Dispute reason is too long (max 128 characters)"@,
            *self is InsufficientVaultBalance ==> r@ == "Escrow vault balance is insufficient"@,
    {
        match self {
            EscrowError::InvalidAmount => "Escrow amount must be greater than zero".to_owned(),
            EscrowError::InvalidState => "Escrow is not in the expected state for this operation".to_owned(),
            EscrowError::UnauthorizedDepositor => "Only the depositor can perform this action".to_owned(),
            EscrowError::UnauthorizedArbiter => "Only the arbiter can resolve disputes".to_owned(),
            EscrowError::UnauthorizedParty => "Only a party to the escrow can raise a dispute".to_owned(),
            EscrowError::AutoReleaseNotReady => "Auto-release slot has not been reached yet".to_owned(),
            EscrowError::AutoReleaseDisabled => "Auto-release is not enabled for this escrow".to_owned(),
            EscrowError::DisputeReasonTooLong => "Dispute reason is too long (max 128 characters)".to_owned(),
            EscrowError::InsufficientVaultBalance => "Escrow vault balance is insufficient".to_owned(),
        }
    }
}

} // verus!

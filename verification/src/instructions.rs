//! The transition handlers of the escrow lifecycle, one module per
//! transition.
//!
//! Each handler follows the same shape: run the authorization guard, check
//! the record's phase against the transition graph, perform at most one
//! ledger move, then commit the new status and the update timestamp. Every
//! failure is reported before any mutation, so a rejected call leaves the
//! record and every balance exactly as they were.

pub mod auto_release;
pub mod cancel;
pub mod dispute;
pub mod fund;
pub mod initialize;
pub mod release;

pub use auto_release::AutoRelease;
pub use cancel::CancelEscrow;
pub use dispute::RaiseDispute;
pub use dispute::ResolveDispute;
pub use fund::FundEscrow;
pub use initialize::InitializeEscrow;
pub use release::ReleaseFunds;

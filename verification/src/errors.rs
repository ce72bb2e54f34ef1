//! Caller-visible error outcomes. Each aborts only the current operation,
//! with no partial state change.

use vstd::prelude::*;

verus! {

/// Errors that can occur in the streaming payments ledger.
#[derive(Clone, Copy, Debug, PartialEq, Eq, Structural)]
pub enum StreamError {
    /// Stream not found
    StreamNotFound,
    /// Not authorized to perform this action
    NotAuthorized,
    /// Stream is not active
    StreamNotActive,
    /// Invalid amount (must be positive)
    InvalidAmount,
    /// Invalid duration (must be positive)
    InvalidDuration,
    /// Insufficient balance to withdraw
    InsufficientBalance,
    /// Stream already exists between these parties
    StreamAlreadyExists,
    /// Ledger not initialized
    NotInitialized,
    /// Overflow in calculation
    Overflow,
    /// Invalid fee (must be 0-1000 basis points)
    InvalidFee,
    /// Stream is past its grace period
    InGracePeriod,
    /// Renewal failed - insufficient funds
    RenewalFailed,
    /// Stream already terminated
    AlreadyTerminated,
}

} // verus!

//! The stream entity: a time-bounded, rate-based payment commitment from a
//! subscriber to a creator.

use vstd::prelude::*;

verus! {

/// An opaque, equatable party identifier (payer, payee, asset, or wallet).
/// The host environment maps its own address representation to these.
pub type AccountId = u64;

/// Status of a payment stream. A stream is terminal once non-Active,
/// except that a Completed stream can still accept one final withdrawal.
#[derive(Clone, Copy, Debug, PartialEq, Eq, Structural)]
pub enum StreamStatus {
    /// Stream is actively accruing funds
    Active,
    /// Stream was cancelled by the subscriber, refund issued
    Cancelled,
    /// Stream completed its full duration
    Completed,
    /// Stream was terminated by the creator
    Terminated,
}

/// A streaming payment from a subscriber to a creator.
#[derive(Clone, Copy, Debug, PartialEq, Eq, Structural)]
pub struct Stream {
    /// Unique stream identifier, assigned monotonically and never reused
    pub id: u64,
    /// Subscriber (payer)
    pub subscriber: AccountId,
    /// Creator (payee)
    pub creator: AccountId,
    /// Asset being streamed
    pub token: AccountId,
    /// Total value ever committed to this stream (grows only by extension)
    pub total_amount: i128,
    /// Value accrued per second; re-derived on extension
    pub rate_per_second: i128,
    /// Start of the accrual window
    pub start_time: u64,
    /// End of the accrual window; always `start_time + duration_seconds`
    pub end_time: u64,
    /// Cumulative gross amount already paid out on the creator's behalf
    pub withdrawn: i128,
    /// Current lifecycle state
    pub status: StreamStatus,
    /// Subscription tier identifier
    pub tier_id: u32,
    /// Platform wallet snapshotted at creation
    pub platform_wallet: AccountId,
    /// Whether auto-renewal is enabled
    pub auto_renew: bool,
    /// Nominal duration; grows on extension
    pub duration_seconds: u64,
}

/// Well-formedness of a single stream record. Established at creation and
/// preserved by every operation.
pub open spec fn stream_wf(s: Stream) -> bool {
    &&& s.id >= 1
    &&& s.total_amount > 0
    &&& 0 <= s.withdrawn <= s.total_amount
    &&& s.rate_per_second >= 0
    &&& s.duration_seconds > 0
    &&& s.end_time == s.start_time + s.duration_seconds
}

} // verus!

//! The accrual calculator: a pure function of a stream and the current time
//! giving the earned-to-date amount, used by every money-moving operation.

use vstd::prelude::*;
use crate::errors::StreamError;
use crate::stream::{Stream, stream_wf};

verus! {

/// Seconds of accrual elapsed at `now`. The accrual window is
/// `[start_time, end_time]`; clock values before `start_time` count as zero
/// (a guard against clock skew).
pub open spec fn spec_elapsed(s: Stream, now: u64) -> int {
    if now >= s.end_time {
        s.end_time - s.start_time
    } else if now >= s.start_time {
        now - s.start_time
    } else {
        0
    }
}

/// Raw accrued value at `now`: rate × elapsed, before clamping.
pub open spec fn spec_earned_raw(s: Stream, now: u64) -> int {
    s.rate_per_second * spec_elapsed(s, now)
}

/// Value earned by the creator at `now`: rate × elapsed, clamped to the
/// total commitment so that no more than `total_amount` can ever accrue.
pub open spec fn spec_earned(s: Stream, now: u64) -> int {
    if spec_earned_raw(s, now) > s.total_amount {
        s.total_amount as int
    } else {
        spec_earned_raw(s, now)
    }
}

/// Gross (pre-fee) amount withdrawable at `now`: earned minus what was
/// already paid out, floored at zero.
pub open spec fn spec_withdrawable(s: Stream, now: u64) -> int {
    if spec_earned(s, now) > s.withdrawn {
        spec_earned(s, now) - s.withdrawn
    } else {
        0
    }
}

/// The raw accrued value is never negative for a well-formed stream.
pub proof fn lemma_earned_raw_nonneg(s: Stream, now: u64)
    requires
        stream_wf(s),
    ensures
        spec_earned_raw(s, now) >= 0,
{
    assert(s.rate_per_second * spec_elapsed(s, now) >= 0) by (nonlinear_arith)
        requires s.rate_per_second >= 0, spec_elapsed(s, now) >= 0,
    ;
}

/// Earned value stays within `[0, total_amount]` for a well-formed stream.
pub proof fn lemma_earned_le_total(s: Stream, now: u64)
    requires
        stream_wf(s),
    ensures
        0 <= spec_earned(s, now) <= s.total_amount,
        0 <= spec_withdrawable(s, now) <= s.total_amount - s.withdrawn,
{
    lemma_earned_raw_nonneg(s, now);
}

/// As the clock advances, the earned value of a fixed stream record never
/// decreases.
pub proof fn lemma_earned_monotonic(s: Stream, t1: u64, t2: u64)
    requires
        stream_wf(s),
        t1 <= t2,
    ensures
        spec_earned(s, t1) <= spec_earned(s, t2),
{
    assert(s.rate_per_second * spec_elapsed(s, t1) <= s.rate_per_second * spec_elapsed(s, t2))
        by (nonlinear_arith)
        requires s.rate_per_second >= 0, spec_elapsed(s, t1) <= spec_elapsed(s, t2),
    ;
}

/// Computes the earned-to-date amount, reporting `Overflow` instead of
/// wrapping when the rate × elapsed multiplication leaves the machine range.
pub fn earned(s: &Stream, now: u64) -> (r: Result<i128, StreamError>)
    requires
        stream_wf(*s),
    ensures
        r is Ok <==> spec_earned_raw(*s, now) <= i128::MAX,
        r matches Ok(v) ==> v == spec_earned(*s, now),
        r matches Err(e) ==> e == StreamError::Overflow,
{
    let elapsed: u64 = if now >= s.end_time {
        s.end_time - s.start_time
    } else if now >= s.start_time {
        now - s.start_time
    } else {
        0
    };
    proof {
        lemma_earned_raw_nonneg(*s, now);
    }
    match s.rate_per_second.checked_mul(elapsed as i128) {
        Some(raw) => {
            if raw > s.total_amount {
                Ok(s.total_amount)
            } else {
                Ok(raw)
            }
        },
        None => Err(StreamError::Overflow),
    }
}

} // verus!

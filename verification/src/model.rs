//! The mathematical model of the ledger: its configuration, the registry of
//! streams, the derived indices, and the meaning of every operation as a
//! pure transition on that model. The executable ledger's contracts are
//! stated against these definitions.

use vstd::prelude::*;
use crate::accrual::{spec_earned_raw, spec_withdrawable};
use crate::errors::StreamError;
use crate::fees::{spec_fee, DEFAULT_PLATFORM_FEE_BPS, MAX_PLATFORM_FEE_BPS};
use crate::stream::{AccountId, Stream, StreamStatus, stream_wf};

verus! {

/// Default grace period (24 hours in seconds)
pub const DEFAULT_GRACE_PERIOD: u64 = 86400;

/// Process-wide configuration, set once by initialization and mutable only
/// through the admin operations.
#[derive(Clone, Copy, Debug, PartialEq, Eq, Structural)]
pub struct Config {
    /// Admin identity for configuration management
    pub admin: AccountId,
    /// Wallet receiving platform fees on streams created from now on
    pub platform_wallet: AccountId,
    /// Platform fee in basis points, always within [0, 1000]
    pub fee_bps: i128,
    /// Grace period in seconds for auto-renewal after a stream's end
    pub grace_period: u64,
    /// Next stream id to assign; ids are monotone and never reused
    pub next_id: u64,
}

/// The ledger model: optional configuration plus every stream ever created,
/// ordered by id. The stream with id `i` sits at index `i - 1`; streams are
/// never removed, so all indices are derived from this sequence.
#[verifier::ext_equal]
pub struct ContractModel {
    pub config: Option<Config>,
    pub streams: Seq<Stream>,
}

/// The fee in force: the configured value, or the default when the ledger
/// was never initialized.
pub open spec fn spec_fee_bps(m: ContractModel) -> i128 {
    match m.config {
        Some(c) => c.fee_bps,
        None => DEFAULT_PLATFORM_FEE_BPS,
    }
}

/// The grace period in force: the configured value, or the default when the
/// ledger was never initialized.
pub open spec fn spec_grace_period(m: ContractModel) -> u64 {
    match m.config {
        Some(c) => c.grace_period,
        None => DEFAULT_GRACE_PERIOD,
    }
}

/// Whether a stream with this id exists.
pub open spec fn spec_has_stream(m: ContractModel, id: u64) -> bool {
    1 <= id <= m.streams.len()
}

/// The stream with the given id.
pub open spec fn spec_stream_at(m: ContractModel, id: u64) -> Stream {
    m.streams[id as int - 1]
}

/// Whether `s` is an Active stream between this subscriber and creator.
pub open spec fn is_active_pair(s: Stream, subscriber: AccountId, creator: AccountId) -> bool {
    s.status == StreamStatus::Active && s.subscriber == subscriber && s.creator == creator
}

/// Whether some Active stream between this subscriber and creator exists.
pub open spec fn spec_has_active_stream(
    m: ContractModel,
    subscriber: AccountId,
    creator: AccountId,
) -> bool {
    exists|i: int|
        0 <= i < m.streams.len() && is_active_pair(#[trigger] m.streams[i], subscriber, creator)
}

/// Well-formedness of the stream registry: every record is well-formed and
/// sits at the index its id names, and at most one Active stream exists for
/// any (subscriber, creator) pair.
pub open spec fn wf_streams(streams: Seq<Stream>) -> bool {
    &&& forall|i: int|
        0 <= i < streams.len() ==> stream_wf(#[trigger] streams[i]) && streams[i].id == i + 1
    &&& forall|i: int, j: int|
        #![trigger streams[i], streams[j]]
        0 <= i < streams.len() && 0 <= j < streams.len() && i != j
            && streams[i].status == StreamStatus::Active
            && streams[j].status == StreamStatus::Active ==> !(streams[i].subscriber
            == streams[j].subscriber && streams[i].creator == streams[j].creator)
}

/// Well-formedness of the whole ledger model; holds after every operation.
pub open spec fn wf(m: ContractModel) -> bool {
    &&& m.config is None ==> m.streams.len() == 0
    &&& (m.config matches Some(c) ==> 0 <= c.fee_bps <= MAX_PLATFORM_FEE_BPS && c.next_id
        == m.streams.len() + 1)
    &&& wf_streams(m.streams)
}

/// Replacing a stream record without changing its parties or id, and
/// without activating a non-Active stream, preserves registry
/// well-formedness.
pub proof fn lemma_wf_update(streams: Seq<Stream>, idx: int, s2: Stream)
    requires
        wf_streams(streams),
        0 <= idx < streams.len(),
        stream_wf(s2),
        s2.id == streams[idx].id,
        s2.subscriber == streams[idx].subscriber,
        s2.creator == streams[idx].creator,
        s2.status == StreamStatus::Active ==> streams[idx].status == StreamStatus::Active,
    ensures
        wf_streams(streams.update(idx, s2)),
{
    let u = streams.update(idx, s2);
    assert forall|i: int| 0 <= i < u.len() implies stream_wf(#[trigger] u[i]) && u[i].id == i
        + 1 by {
        if i != idx {
            assert(u[i] == streams[i]);
        }
    }
    assert forall|i: int, j: int|
        #![trigger u[i], u[j]]
        0 <= i < u.len() && 0 <= j < u.len() && i != j && u[i].status == StreamStatus::Active
            && u[j].status == StreamStatus::Active implies !(u[i].subscriber == u[j].subscriber
        && u[i].creator == u[j].creator) by {
        let a = if i == idx {
            streams[idx]
        } else {
            streams[i]
        };
        let b = if j == idx {
            streams[idx]
        } else {
            streams[j]
        };
        assert(a.status == StreamStatus::Active && b.status == StreamStatus::Active);
        assert(a.subscriber == u[i].subscriber && a.creator == u[i].creator);
        assert(b.subscriber == u[j].subscriber && b.creator == u[j].creator);
        assert(!(a.subscriber == b.subscriber && a.creator == b.creator));
    }
}

/// Appending a fresh Active stream for a pair with no existing Active
/// stream preserves registry well-formedness.
pub proof fn lemma_wf_push(streams: Seq<Stream>, s: Stream)
    requires
        wf_streams(streams),
        stream_wf(s),
        s.id == streams.len() + 1,
        forall|i: int|
            0 <= i < streams.len() ==> !is_active_pair(
                #[trigger] streams[i],
                s.subscriber,
                s.creator,
            ),
    ensures
        wf_streams(streams.push(s)),
{
    let u = streams.push(s);
    assert forall|i: int| 0 <= i < u.len() implies stream_wf(#[trigger] u[i]) && u[i].id == i
        + 1 by {
        if i < streams.len() {
            assert(u[i] == streams[i]);
        } else {
            assert(u[i] == s);
        }
    }
    assert forall|i: int, j: int|
        #![trigger u[i], u[j]]
        0 <= i < u.len() && 0 <= j < u.len() && i != j && u[i].status == StreamStatus::Active
            && u[j].status == StreamStatus::Active implies !(u[i].subscriber == u[j].subscriber
        && u[i].creator == u[j].creator) by {
        let n = streams.len() as int;
        if i < n && j < n {
            assert(u[i] == streams[i] && u[j] == streams[j]);
        } else if i < n {
            assert(u[j] == s && u[i] == streams[i]);
            assert(!is_active_pair(streams[i], s.subscriber, s.creator));
        } else {
            assert(u[i] == s && j < n && u[j] == streams[j]);
            assert(!is_active_pair(streams[j], s.subscriber, s.creator));
        }
    }
}

/// Ids among the first `n` streams whose subscriber is `who`, in id order.
pub open spec fn subscriber_ids_upto(streams: Seq<Stream>, who: AccountId, n: int) -> Seq<u64>
    decreases n,
{
    if n <= 0 {
        Seq::empty()
    } else if streams[n - 1].subscriber == who {
        subscriber_ids_upto(streams, who, n - 1).push(streams[n - 1].id)
    } else {
        subscriber_ids_upto(streams, who, n - 1)
    }
}

/// Ids among the first `n` streams whose creator is `who`, in id order.
pub open spec fn creator_ids_upto(streams: Seq<Stream>, who: AccountId, n: int) -> Seq<u64>
    decreases n,
{
    if n <= 0 {
        Seq::empty()
    } else if streams[n - 1].creator == who {
        creator_ids_upto(streams, who, n - 1).push(streams[n - 1].id)
    } else {
        creator_ids_upto(streams, who, n - 1)
    }
}

/// The append-only history of stream ids in which `who` participated as
/// subscriber.
pub open spec fn spec_subscriber_streams(m: ContractModel, who: AccountId) -> Seq<u64> {
    subscriber_ids_upto(m.streams, who, m.streams.len() as int)
}

/// The append-only history of stream ids in which `who` participated as
/// creator.
pub open spec fn spec_creator_streams(m: ContractModel, who: AccountId) -> Seq<u64> {
    creator_ids_upto(m.streams, who, m.streams.len() as int)
}

/// Number of Active streams among the first `n` whose creator is `creator`.
pub open spec fn active_count_upto(streams: Seq<Stream>, creator: AccountId, n: int) -> int
    decreases n,
{
    if n <= 0 {
        0
    } else {
        active_count_upto(streams, creator, n - 1) + if streams[n - 1].status
            == StreamStatus::Active && streams[n - 1].creator == creator {
            1int
        } else {
            0int
        }
    }
}

/// The creator's current count of Active streams.
pub open spec fn spec_active_subscriber_count(m: ContractModel, creator: AccountId) -> int {
    active_count_upto(m.streams, creator, m.streams.len() as int)
}

/// Addition saturating at the top of the i128 range.
pub open spec fn sat_add_i128(a: int, b: int) -> int {
    if a + b > i128::MAX {
        i128::MAX as int
    } else {
        a + b
    }
}

/// The withdrawable query on one stream: the fee-net amount the creator
/// could withdraw at `now`, zero for non-Active streams, `Overflow` when an
/// intermediate product leaves the machine range.
pub open spec fn withdrawable_model(m: ContractModel, id: u64, now: u64) -> Result<
    i128,
    StreamError,
> {
    if !spec_has_stream(m, id) {
        Err(StreamError::StreamNotFound)
    } else {
        let s = spec_stream_at(m, id);
        if s.status != StreamStatus::Active {
            Ok(0i128)
        } else if spec_earned_raw(s, now) > i128::MAX {
            Err(StreamError::Overflow)
        } else {
            let w = spec_withdrawable(s, now);
            let bps = spec_fee_bps(m);
            if w * bps > i128::MAX {
                Err(StreamError::Overflow)
            } else {
                Ok((w - spec_fee(w, bps as int)) as i128)
            }
        }
    }
}

/// The creator's total accrued fee-net withdrawable over the first `n`
/// streams, added with saturation; failing streams contribute nothing.
pub open spec fn accrued_upto(m: ContractModel, creator: AccountId, now: u64, n: int) -> int
    decreases n,
{
    if n <= 0 {
        0
    } else {
        let prev = accrued_upto(m, creator, now, n - 1);
        if m.streams[n - 1].creator == creator {
            match withdrawable_model(m, n as u64, now) {
                Ok(v) => sat_add_i128(prev, v as int),
                Err(_) => prev,
            }
        } else {
            prev
        }
    }
}

/// The creator's total accrued fee-net withdrawable across all streams.
pub open spec fn spec_total_accrued(m: ContractModel, creator: AccountId, now: u64) -> int {
    accrued_upto(m, creator, now, m.streams.len() as int)
}

/// Outcome of a withdrawal: the creator's net payout and the platform fee.
/// Their sum is the gross amount debited from the stream.
#[derive(Clone, Copy, Debug, PartialEq, Eq, Structural)]
pub struct WithdrawReceipt {
    pub net: i128,
    pub fee: i128,
}

/// Outcome of a cancellation: the split of the creator's pending earnings
/// and the subscriber's refund of everything never earned.
#[derive(Clone, Copy, Debug, PartialEq, Eq, Structural)]
pub struct CancelReceipt {
    pub creator_net: i128,
    pub fee: i128,
    pub subscriber_refund: i128,
}

/// The withdraw transition: pays out the pending earned amount, fee-split,
/// and completes the stream when its window has elapsed.
pub open spec fn withdraw_model(m: ContractModel, id: u64, now: u64) -> (
    ContractModel,
    Result<WithdrawReceipt, StreamError>,
) {
    if !spec_has_stream(m, id) {
        (m, Err(StreamError::StreamNotFound))
    } else {
        let s = spec_stream_at(m, id);
        if s.status != StreamStatus::Active && s.status != StreamStatus::Completed {
            (m, Err(StreamError::StreamNotActive))
        } else if spec_earned_raw(s, now) > i128::MAX {
            (m, Err(StreamError::Overflow))
        } else {
            let w = spec_withdrawable(s, now);
            if w <= 0 {
                (m, Err(StreamError::InsufficientBalance))
            } else {
                let bps = spec_fee_bps(m);
                if w * bps > i128::MAX {
                    (m, Err(StreamError::Overflow))
                } else {
                    let fee = spec_fee(w, bps as int);
                    let s2 = Stream {
                        withdrawn: (s.withdrawn + w) as i128,
                        status: if now >= s.end_time {
                            StreamStatus::Completed
                        } else {
                            s.status
                        },
                        ..s
                    };
                    (
                        ContractModel { streams: m.streams.update(id as int - 1, s2), ..m },
                        Ok(WithdrawReceipt { net: (w - fee) as i128, fee: fee as i128 }),
                    )
                }
            }
        }
    }
}

/// The cancel transition: fee-splits the creator's pending earnings,
/// refunds the subscriber the remainder, and marks the stream Cancelled.
pub open spec fn cancel_model(m: ContractModel, id: u64, now: u64) -> (
    ContractModel,
    Result<CancelReceipt, StreamError>,
) {
    if !spec_has_stream(m, id) {
        (m, Err(StreamError::StreamNotFound))
    } else {
        let s = spec_stream_at(m, id);
        if s.status != StreamStatus::Active {
            (m, Err(StreamError::StreamNotActive))
        } else if spec_earned_raw(s, now) > i128::MAX {
            (m, Err(StreamError::Overflow))
        } else {
            let pending = spec_withdrawable(s, now);
            let bps = spec_fee_bps(m);
            if pending * bps > i128::MAX {
                (m, Err(StreamError::Overflow))
            } else {
                let fee = spec_fee(pending, bps as int);
                let s2 = Stream {
                    withdrawn: (s.withdrawn + pending) as i128,
                    status: StreamStatus::Cancelled,
                    ..s
                };
                (
                    ContractModel { streams: m.streams.update(id as int - 1, s2), ..m },
                    Ok(
                        CancelReceipt {
                            creator_net: (pending - fee) as i128,
                            fee: fee as i128,
                            subscriber_refund: (s.total_amount - s.withdrawn - pending) as i128,
                        },
                    ),
                )
            }
        }
    }
}

/// The terminate transition: the creator forfeits pending earnings; the
/// whole remaining balance is refunded to the subscriber.
pub open spec fn terminate_model(m: ContractModel, id: u64, now: u64) -> (
    ContractModel,
    Result<i128, StreamError>,
) {
    if !spec_has_stream(m, id) {
        (m, Err(StreamError::StreamNotFound))
    } else {
        let s = spec_stream_at(m, id);
        if s.status != StreamStatus::Active {
            (m, Err(StreamError::AlreadyTerminated))
        } else if spec_earned_raw(s, now) > i128::MAX {
            (m, Err(StreamError::Overflow))
        } else {
            let s2 = Stream { status: StreamStatus::Terminated, ..s };
            (
                ContractModel { streams: m.streams.update(id as int - 1, s2), ..m },
                Ok((s.total_amount - s.withdrawn) as i128),
            )
        }
    }
}

/// The extend transition: adds value and time, then re-derives the rate by
/// spreading the remaining balance evenly over the remaining time.
pub open spec fn extend_model(
    m: ContractModel,
    id: u64,
    additional_amount: i128,
    additional_seconds: u64,
    now: u64,
) -> (ContractModel, Result<(), StreamError>) {
    if !spec_has_stream(m, id) {
        (m, Err(StreamError::StreamNotFound))
    } else {
        let s = spec_stream_at(m, id);
        if s.status != StreamStatus::Active {
            (m, Err(StreamError::StreamNotActive))
        } else if additional_amount <= 0 {
            (m, Err(StreamError::InvalidAmount))
        } else if additional_seconds == 0 {
            (m, Err(StreamError::InvalidDuration))
        } else if s.total_amount + additional_amount > i128::MAX {
            (m, Err(StreamError::Overflow))
        } else if s.end_time + additional_seconds > u64::MAX {
            (m, Err(StreamError::Overflow))
        } else if now >= s.end_time + additional_seconds {
            (m, Err(StreamError::Overflow))
        } else {
            let total2 = s.total_amount + additional_amount;
            let end2 = s.end_time + additional_seconds;
            let s2 = Stream {
                total_amount: total2 as i128,
                end_time: end2 as u64,
                duration_seconds: (s.duration_seconds + additional_seconds) as u64,
                rate_per_second: ((total2 - s.withdrawn) / (end2 - now)) as i128,
                ..s
            };
            (ContractModel { streams: m.streams.update(id as int - 1, s2), ..m }, Ok(()))
        }
    }
}

/// The auto-renew toggle transition: a flag flip on an Active stream.
pub open spec fn toggle_model(m: ContractModel, id: u64, enabled: bool) -> (
    ContractModel,
    Result<(), StreamError>,
) {
    if !spec_has_stream(m, id) {
        (m, Err(StreamError::StreamNotFound))
    } else {
        let s = spec_stream_at(m, id);
        if s.status != StreamStatus::Active {
            (m, Err(StreamError::StreamNotActive))
        } else {
            let s2 = Stream { auto_renew: enabled, ..s };
            (ContractModel { streams: m.streams.update(id as int - 1, s2), ..m }, Ok(()))
        }
    }
}

/// The create transition: validates inputs, enforces the one-Active-stream-
/// per-pair rule, assigns the next id, and records the new Active stream.
pub open spec fn create_model(
    m: ContractModel,
    subscriber: AccountId,
    creator: AccountId,
    token: AccountId,
    amount: i128,
    duration_seconds: u64,
    tier_id: u32,
    auto_renew: bool,
    now: u64,
) -> (ContractModel, Result<u64, StreamError>) {
    if amount <= 0 {
        (m, Err(StreamError::InvalidAmount))
    } else if duration_seconds == 0 {
        (m, Err(StreamError::InvalidDuration))
    } else if spec_has_active_stream(m, subscriber, creator) {
        (m, Err(StreamError::StreamAlreadyExists))
    } else if m.config is None {
        (m, Err(StreamError::NotInitialized))
    } else {
        let c = m.config.unwrap();
        if now + duration_seconds > u64::MAX {
            (m, Err(StreamError::Overflow))
        } else if c.next_id == u64::MAX {
            (m, Err(StreamError::Overflow))
        } else {
            let s = Stream {
                id: c.next_id,
                subscriber,
                creator,
                token,
                total_amount: amount,
                rate_per_second: (amount as int / duration_seconds as int) as i128,
                start_time: now,
                end_time: (now + duration_seconds) as u64,
                withdrawn: 0,
                status: StreamStatus::Active,
                tier_id,
                platform_wallet: c.platform_wallet,
                auto_renew,
                duration_seconds,
            };
            (
                ContractModel {
                    config: Some(Config { next_id: (c.next_id + 1) as u64, ..c }),
                    streams: m.streams.push(s),
                },
                Ok(c.next_id),
            )
        }
    }
}

/// The renew transition: for an expired stream with auto-renewal enabled
/// and within its grace period, frees the old stream's active slot and
/// creates a fresh stream with the same terms; past the grace period the
/// old stream is marked Completed and the renewal fails.
pub open spec fn renew_model(m: ContractModel, id: u64, now: u64) -> (
    ContractModel,
    Result<u64, StreamError>,
) {
    if !spec_has_stream(m, id) {
        (m, Err(StreamError::StreamNotFound))
    } else {
        let s = spec_stream_at(m, id);
        if s.status == StreamStatus::Active && now < s.end_time {
            (m, Err(StreamError::StreamNotActive))
        } else if !s.auto_renew {
            (m, Err(StreamError::StreamNotActive))
        } else if now > s.end_time + spec_grace_period(m) {
            let s2 = Stream { status: StreamStatus::Completed, ..s };
            (
                ContractModel { streams: m.streams.update(id as int - 1, s2), ..m },
                Err(StreamError::InGracePeriod),
            )
        } else {
            let s2 = Stream { status: StreamStatus::Completed, ..s };
            let m1 = ContractModel { streams: m.streams.update(id as int - 1, s2), ..m };
            let step = create_model(
                m1,
                s.subscriber,
                s.creator,
                s.token,
                s.total_amount,
                s.duration_seconds,
                s.tier_id,
                true,
                now,
            );
            match step.1 {
                Ok(new_id) => (step.0, Ok(new_id)),
                Err(e) => (m, Err(e)),
            }
        }
    }
}

/// The batch-withdraw fold over the first `n` of the creator's stream ids:
/// attempts a withdrawal on each in turn, ignoring per-stream failures and
/// summing the net payouts with saturation.
pub open spec fn withdraw_all_upto(m: ContractModel, ids: Seq<u64>, now: u64, n: int) -> (
    ContractModel,
    int,
)
    decreases n,
{
    if n <= 0 {
        (m, 0)
    } else {
        let prev = withdraw_all_upto(m, ids, now, n - 1);
        let step = withdraw_model(prev.0, ids[n - 1], now);
        (
            step.0,
            match step.1 {
                Ok(rec) => sat_add_i128(prev.1, rec.net as int),
                Err(_) => prev.1,
            },
        )
    }
}

/// The batch-withdraw transition over the creator's whole stream history.
pub open spec fn withdraw_all_model(m: ContractModel, creator: AccountId, now: u64) -> (
    ContractModel,
    int,
) {
    let ids = spec_creator_streams(m, creator);
    withdraw_all_upto(m, ids, now, ids.len() as int)
}

} // verus!

//! The library's laws, proved once and for all over the ledger model:
//! lifecycle activation and deactivation, accrual and withdrawal bounds,
//! and exact conservation of funds at every terminal settlement.

use vstd::prelude::*;
use crate::accrual::{lemma_earned_le_total, lemma_earned_monotonic, spec_earned};
use crate::fees::lemma_fee_bounds;
use crate::model::{
    cancel_model, create_model, is_active_pair, spec_fee_bps, spec_has_active_stream,
    spec_has_stream, spec_stream_at, terminate_model, wf, withdraw_model, ContractModel,
};
use crate::stream::{stream_wf, AccountId, StreamStatus};

verus! {

/// Lifecycle, activation half: immediately after a successful creation the
/// new stream's record is Active and the (subscriber, creator) pair has an
/// active stream.
pub proof fn lemma_create_activates(
    m: ContractModel,
    subscriber: AccountId,
    creator: AccountId,
    token: AccountId,
    amount: i128,
    duration_seconds: u64,
    tier_id: u32,
    auto_renew: bool,
    now: u64,
)
    requires
        wf(m),
        create_model(m, subscriber, creator, token, amount, duration_seconds, tier_id,
            auto_renew, now).1 is Ok,
    ensures
        ({
            let m2 = create_model(m, subscriber, creator, token, amount, duration_seconds,
                tier_id, auto_renew, now).0;
            let id = create_model(m, subscriber, creator, token, amount, duration_seconds,
                tier_id, auto_renew, now).1->Ok_0;
            &&& spec_has_stream(m2, id)
            &&& spec_stream_at(m2, id).status == StreamStatus::Active
            &&& spec_has_active_stream(m2, subscriber, creator)
        }),
{
    let m2 = create_model(m, subscriber, creator, token, amount, duration_seconds, tier_id,
        auto_renew, now).0;
    let n = m.streams.len() as int;
    assert(is_active_pair(m2.streams[n], subscriber, creator));
}

/// Lifecycle, deactivation half, for cancellation: afterwards the stream
/// is Cancelled and its pair no longer has an active stream.
pub proof fn lemma_cancel_deactivates(m: ContractModel, id: u64, now: u64)
    requires
        wf(m),
        cancel_model(m, id, now).1 is Ok,
    ensures
        spec_stream_at(cancel_model(m, id, now).0, id).status == StreamStatus::Cancelled,
        !spec_has_active_stream(
            cancel_model(m, id, now).0,
            spec_stream_at(m, id).subscriber,
            spec_stream_at(m, id).creator,
        ),
{
    let m2 = cancel_model(m, id, now).0;
    let s = spec_stream_at(m, id);
    let idx = id as int - 1;
    assert forall|i: int| 0 <= i < m2.streams.len() implies !is_active_pair(
        #[trigger] m2.streams[i],
        s.subscriber,
        s.creator,
    ) by {
        if i != idx && is_active_pair(m2.streams[i], s.subscriber, s.creator) {
            assert(m2.streams[i] == m.streams[i]);
            assert(m.streams[idx] == s);
            assert(false);
        }
    }
}

/// Lifecycle, deactivation half, for termination: afterwards the stream
/// is Terminated and its pair no longer has an active stream.
pub proof fn lemma_terminate_deactivates(m: ContractModel, id: u64, now: u64)
    requires
        wf(m),
        terminate_model(m, id, now).1 is Ok,
    ensures
        spec_stream_at(terminate_model(m, id, now).0, id).status == StreamStatus::Terminated,
        !spec_has_active_stream(
            terminate_model(m, id, now).0,
            spec_stream_at(m, id).subscriber,
            spec_stream_at(m, id).creator,
        ),
{
    let m2 = terminate_model(m, id, now).0;
    let s = spec_stream_at(m, id);
    let idx = id as int - 1;
    assert forall|i: int| 0 <= i < m2.streams.len() implies !is_active_pair(
        #[trigger] m2.streams[i],
        s.subscriber,
        s.creator,
    ) by {
        if i != idx && is_active_pair(m2.streams[i], s.subscriber, s.creator) {
            assert(m2.streams[i] == m.streams[i]);
            assert(m.streams[idx] == s);
            assert(false);
        }
    }
}

/// Lifecycle, deactivation half, for completion: a withdrawal at or past
/// the stream's end marks it Completed and frees its active-pair slot.
pub proof fn lemma_withdraw_completes(m: ContractModel, id: u64, now: u64)
    requires
        wf(m),
        withdraw_model(m, id, now).1 is Ok,
        spec_stream_at(m, id).status == StreamStatus::Active,
        now >= spec_stream_at(m, id).end_time,
    ensures
        spec_stream_at(withdraw_model(m, id, now).0, id).status == StreamStatus::Completed,
        !spec_has_active_stream(
            withdraw_model(m, id, now).0,
            spec_stream_at(m, id).subscriber,
            spec_stream_at(m, id).creator,
        ),
{
    let m2 = withdraw_model(m, id, now).0;
    let s = spec_stream_at(m, id);
    let idx = id as int - 1;
    assert forall|i: int| 0 <= i < m2.streams.len() implies !is_active_pair(
        #[trigger] m2.streams[i],
        s.subscriber,
        s.creator,
    ) by {
        if i != idx && is_active_pair(m2.streams[i], s.subscriber, s.creator) {
            assert(m2.streams[i] == m.streams[i]);
            assert(m.streams[idx] == s);
            assert(s.status == StreamStatus::Active);
            assert(false);
        }
    }
}

/// Withdrawal bounds: an operation never decreases a stream's cumulative
/// `withdrawn`, never pushes it past the total commitment, and a
/// successful withdrawal re-establishes `withdrawn ≤ earned(t)` for every
/// later clock reading. Earned itself stays within `[0, total_amount]`
/// and is monotone in time (see the accrual lemmas).
pub proof fn lemma_withdrawn_monotone_bounded(m: ContractModel, id: u64, t0: u64, t1: u64)
    requires
        wf(m),
        spec_has_stream(m, id),
        t0 <= t1,
    ensures
        spec_stream_at(withdraw_model(m, id, t0).0, id).withdrawn >= spec_stream_at(
            m,
            id,
        ).withdrawn,
        spec_stream_at(withdraw_model(m, id, t0).0, id).withdrawn <= spec_stream_at(
            m,
            id,
        ).total_amount,
        spec_stream_at(cancel_model(m, id, t0).0, id).withdrawn >= spec_stream_at(
            m,
            id,
        ).withdrawn,
        spec_stream_at(cancel_model(m, id, t0).0, id).withdrawn <= spec_stream_at(
            m,
            id,
        ).total_amount,
        withdraw_model(m, id, t0).1 is Ok ==> ({
            let s2 = spec_stream_at(withdraw_model(m, id, t0).0, id);
            s2.withdrawn <= spec_earned(s2, t1)
        }),
{
    let s = spec_stream_at(m, id);
    assert(stream_wf(s));
    lemma_earned_le_total(s, t0);
    if withdraw_model(m, id, t0).1 is Ok {
        let s2 = spec_stream_at(withdraw_model(m, id, t0).0, id);
        assert(stream_wf(s2));
        assert(spec_earned(s2, t0) == spec_earned(s, t0));
        lemma_earned_monotonic(s2, t0, t1);
    }
}

/// Conservation at withdrawal: the amounts transferred out — net to the
/// creator, fee to the platform — equal the growth of `withdrawn` exactly,
/// and both are non-negative.
pub proof fn lemma_withdraw_conservation(m: ContractModel, id: u64, now: u64)
    requires
        wf(m),
        withdraw_model(m, id, now).1 is Ok,
    ensures
        ({
            let rec = withdraw_model(m, id, now).1->Ok_0;
            let s = spec_stream_at(m, id);
            let s2 = spec_stream_at(withdraw_model(m, id, now).0, id);
            &&& rec.net + rec.fee == s2.withdrawn - s.withdrawn
            &&& rec.net >= 0
            &&& rec.fee >= 0
        }),
{
    let s = spec_stream_at(m, id);
    assert(stream_wf(s));
    lemma_earned_le_total(s, now);
    lemma_fee_bounds(
        crate::accrual::spec_withdrawable(s, now),
        spec_fee_bps(m) as int,
    );
}

/// Conservation at cancellation: what was withdrawn before, plus the
/// terminal payouts — creator net, platform fee, subscriber refund —
/// equals the total commitment exactly, with every part non-negative.
pub proof fn lemma_cancel_conservation(m: ContractModel, id: u64, now: u64)
    requires
        wf(m),
        cancel_model(m, id, now).1 is Ok,
    ensures
        ({
            let rec = cancel_model(m, id, now).1->Ok_0;
            let s = spec_stream_at(m, id);
            &&& s.withdrawn + rec.creator_net + rec.fee + rec.subscriber_refund
                == s.total_amount
            &&& rec.creator_net >= 0
            &&& rec.fee >= 0
            &&& rec.subscriber_refund >= 0
        }),
{
    let s = spec_stream_at(m, id);
    assert(stream_wf(s));
    lemma_earned_le_total(s, now);
    lemma_fee_bounds(
        crate::accrual::spec_withdrawable(s, now),
        spec_fee_bps(m) as int,
    );
}

/// Conservation at termination: prior withdrawals plus the subscriber's
/// refund equal the total commitment exactly; the creator's pending
/// earnings are forfeited into that refund.
pub proof fn lemma_terminate_conservation(m: ContractModel, id: u64, now: u64)
    requires
        wf(m),
        terminate_model(m, id, now).1 is Ok,
    ensures
        spec_stream_at(m, id).withdrawn + terminate_model(m, id, now).1->Ok_0 == spec_stream_at(
            m,
            id,
        ).total_amount,
        terminate_model(m, id, now).1->Ok_0 >= 0,
{
    let s = spec_stream_at(m, id);
    assert(stream_wf(s));
}

} // verus!

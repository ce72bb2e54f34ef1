//! The executable streaming-payments ledger. Every operation is a pure
//! state transition over plain values; the host environment supplies the
//! clock reading, performs authorization before calling, and carries out
//! the value transfers that the returned receipts describe.

use vstd::prelude::*;
use crate::accrual::{earned, lemma_earned_le_total, spec_withdrawable};
use vstd::arithmetic::div_mod::{lemma_div_is_ordered, lemma_div_nonincreasing};
use crate::errors::StreamError;
use crate::fees::{fee_split, DEFAULT_PLATFORM_FEE_BPS, MAX_PLATFORM_FEE_BPS};
use crate::model::{
    active_count_upto, cancel_model, create_model, creator_ids_upto, extend_model,
    is_active_pair, lemma_wf_push, lemma_wf_update, renew_model,
    spec_active_subscriber_count, spec_creator_streams, spec_fee_bps, spec_grace_period,
    spec_has_active_stream, spec_has_stream, spec_stream_at, spec_subscriber_streams,
    spec_total_accrued, subscriber_ids_upto, terminate_model, toggle_model, wf,
    withdraw_all_model, withdraw_all_upto, withdraw_model, withdrawable_model, accrued_upto,
    CancelReceipt, Config, ContractModel, WithdrawReceipt, DEFAULT_GRACE_PERIOD,
};
use crate::stream::{stream_wf, AccountId, Stream, StreamStatus};

verus! {

/// The streaming-payments ledger: the process-wide configuration and every
/// stream ever created, in id order. All indices (by subscriber, by
/// creator, by active pair, active counts) are derived from this registry.
pub struct StreamingPaymentsContract {
    pub config: Option<Config>,
    pub streams: Vec<Stream>,
}

impl View for StreamingPaymentsContract {
    type V = ContractModel;

    open spec fn view(&self) -> ContractModel {
        ContractModel { config: self.config, streams: self.streams@ }
    }
}

impl StreamingPaymentsContract {
    /// An empty, uninitialized ledger.
    pub fn new() -> (r: Self)
        ensures
            r@.config is None,
            r@.streams.len() == 0,
            wf(r@),
    {
        StreamingPaymentsContract { config: None, streams: Vec::new() }
    }

    /// One-time setup of admin, platform wallet, fee and grace period. The
    /// host aborts the call outright when the ledger is already initialized
    /// or the proposed fee is out of range, so those inputs are excluded.
    pub fn initialize(
        &mut self,
        admin: AccountId,
        platform_wallet: AccountId,
        fee_bps: Option<i128>,
        grace_period: Option<u64>,
    )
        requires
            wf(old(self)@),
            old(self)@.config is None,
            0 <= fee_bps.unwrap_or(DEFAULT_PLATFORM_FEE_BPS) <= MAX_PLATFORM_FEE_BPS,
        ensures
            wf(final(self)@),
            final(self)@.streams == old(self)@.streams,
            final(self)@.config == (Some(
                Config {
                    admin,
                    platform_wallet,
                    fee_bps: fee_bps.unwrap_or(DEFAULT_PLATFORM_FEE_BPS),
                    grace_period: grace_period.unwrap_or(DEFAULT_GRACE_PERIOD),
                    next_id: 1u64,
                },
            )),
    {
        let fee = match fee_bps {
            Some(f) => f,
            None => DEFAULT_PLATFORM_FEE_BPS,
        };
        let grace = match grace_period {
            Some(g) => g,
            None => DEFAULT_GRACE_PERIOD,
        };
        self.config = Some(
            Config { admin, platform_wallet, fee_bps: fee, grace_period: grace, next_id: 1 },
        );
    }

    /// Current platform fee in basis points (the default when the ledger
    /// was never initialized).
    pub fn get_fee_bps(&self) -> (r: i128)
        ensures
            r == spec_fee_bps(self@),
    {
        match self.config {
            Some(c) => c.fee_bps,
            None => DEFAULT_PLATFORM_FEE_BPS,
        }
    }

    /// Current grace period in seconds (the default when the ledger was
    /// never initialized).
    pub fn get_grace_period_seconds(&self) -> (r: u64)
        ensures
            r == spec_grace_period(self@),
    {
        match self.config {
            Some(c) => c.grace_period,
            None => DEFAULT_GRACE_PERIOD,
        }
    }

    /// Stream details by id; `StreamNotFound` exactly when no stream with
    /// this id was ever created.
    pub fn get_stream(&self, stream_id: u64) -> (r: Result<Stream, StreamError>)
        ensures
            spec_has_stream(self@, stream_id) ==> r == Ok::<Stream, StreamError>(
                spec_stream_at(self@, stream_id),
            ),
            !spec_has_stream(self@, stream_id) ==> r == Err::<Stream, StreamError>(
                StreamError::StreamNotFound,
            ),
    {
        let n = self.streams.len();
        if stream_id >= 1 && stream_id <= n as u64 {
            let idx = (stream_id - 1) as usize;
            Ok(self.streams[idx])
        } else {
            Err(StreamError::StreamNotFound)
        }
    }

    /// Whether an Active stream between this subscriber and creator exists.
    pub fn has_active_stream(&self, subscriber: AccountId, creator: AccountId) -> (r: bool)
        ensures
            r == spec_has_active_stream(self@, subscriber, creator),
    {
        let n = self.streams.len();
        let mut i: usize = 0;
        while i < n
            invariant
                i <= n,
                n == self.streams.len(),
                forall|k: int|
                    0 <= k < i ==> !is_active_pair(
                        #[trigger] self.streams@[k],
                        subscriber,
                        creator,
                    ),
            decreases n - i,
        {
            let s = &self.streams[i];
            if s.status == StreamStatus::Active && s.subscriber == subscriber && s.creator
                == creator {
                proof {
                    assert(is_active_pair(self@.streams[i as int], subscriber, creator));
                }
                return true;
            }
            i += 1;
        }
        false
    }

    /// All stream ids in which this address participated as subscriber,
    /// in order of creation; never pruned.
    pub fn get_subscriber_streams(&self, subscriber: AccountId) -> (r: Vec<u64>)
        ensures
            r@ == spec_subscriber_streams(self@, subscriber),
    {
        let n = self.streams.len();
        let mut out: Vec<u64> = Vec::new();
        let mut i: usize = 0;
        while i < n
            invariant
                i <= n,
                n == self.streams.len(),
                out@ == subscriber_ids_upto(self.streams@, subscriber, i as int),
            decreases n - i,
        {
            if self.streams[i].subscriber == subscriber {
                out.push(self.streams[i].id);
            }
            i += 1;
        }
        out
    }

    /// All stream ids in which this address participated as creator, in
    /// order of creation; never pruned.
    pub fn get_creator_streams(&self, creator: AccountId) -> (r: Vec<u64>)
        ensures
            r@ == spec_creator_streams(self@, creator),
    {
        let n = self.streams.len();
        let mut out: Vec<u64> = Vec::new();
        let mut i: usize = 0;
        while i < n
            invariant
                i <= n,
                n == self.streams.len(),
                out@ == creator_ids_upto(self.streams@, creator, i as int),
            decreases n - i,
        {
            if self.streams[i].creator == creator {
                out.push(self.streams[i].id);
            }
            i += 1;
        }
        out
    }

    /// The fee-net amount the creator could withdraw right now: zero for a
    /// non-Active stream, otherwise the earned-minus-withdrawn balance
    /// after the platform fee. Read-only: the result is a function of the
    /// ledger state and the clock reading alone, so repeated calls with no
    /// intervening mutation return the same value.
    pub fn get_withdrawable(&self, stream_id: u64, now: u64) -> (r: Result<i128, StreamError>)
        requires
            wf(self@),
        ensures
            r == withdrawable_model(self@, stream_id, now),
    {
        let s = match self.get_stream(stream_id) {
            Ok(s) => s,
            Err(e) => {
                return Err(e);
            },
        };
        if s.status != StreamStatus::Active {
            return Ok(0);
        }
        let earned_v = match earned(&s, now) {
            Ok(v) => v,
            Err(e) => {
                return Err(e);
            },
        };
        let w = if earned_v > s.withdrawn {
            earned_v - s.withdrawn
        } else {
            0
        };
        let bps = self.get_fee_bps();
        match fee_split(w, bps) {
            Ok(p) => Ok(p.0),
            Err(e) => Err(e),
        }
    }

    /// Creator-side withdrawal of everything earned and not yet paid out,
    /// as a receipt listing the creator's net payout and the platform fee;
    /// the gross amount, net + fee, is added to the stream's `withdrawn`.
    /// When the stream's window has elapsed the stream is also marked
    /// Completed, closing its active-pair slot.
    pub fn withdraw_receipt(&mut self, stream_id: u64, now: u64) -> (r: Result<
        WithdrawReceipt,
        StreamError,
    >)
        requires
            wf(old(self)@),
        ensures
            wf(final(self)@),
            final(self)@ == withdraw_model(old(self)@, stream_id, now).0,
            r == withdraw_model(old(self)@, stream_id, now).1,
    {
        let n = self.streams.len();
        if stream_id == 0 || stream_id > n as u64 {
            return Err(StreamError::StreamNotFound);
        }
        let idx = (stream_id - 1) as usize;
        let s = self.streams[idx];
        if !(s.status == StreamStatus::Active || s.status == StreamStatus::Completed) {
            return Err(StreamError::StreamNotActive);
        }
        let earned_v = match earned(&s, now) {
            Ok(v) => v,
            Err(e) => {
                return Err(e);
            },
        };
        let w = if earned_v > s.withdrawn {
            earned_v - s.withdrawn
        } else {
            0
        };
        if w <= 0 {
            return Err(StreamError::InsufficientBalance);
        }
        let bps = self.get_fee_bps();
        let p = match fee_split(w, bps) {
            Ok(p) => p,
            Err(e) => {
                return Err(e);
            },
        };
        proof {
            lemma_earned_le_total(s, now);
        }
        let mut s2 = s;
        s2.withdrawn = s.withdrawn + w;
        if now >= s.end_time {
            s2.status = StreamStatus::Completed;
        }
        self.streams.set(idx, s2);
        proof {
            lemma_wf_update(old(self)@.streams, idx as int, s2);
        }
        Ok(WithdrawReceipt { net: p.0, fee: p.1 })
    }

    /// Creator-side withdrawal; returns the creator's net payout alone.
    pub fn withdraw(&mut self, stream_id: u64, now: u64) -> (r: Result<i128, StreamError>)
        requires
            wf(old(self)@),
        ensures
            wf(final(self)@),
            final(self)@ == withdraw_model(old(self)@, stream_id, now).0,
            r == (match withdraw_model(old(self)@, stream_id, now).1 {
                Ok(rec) => Ok::<i128, StreamError>(rec.net),
                Err(e) => Err::<i128, StreamError>(e),
            }),
    {
        match self.withdraw_receipt(stream_id, now) {
            Ok(rec) => Ok(rec.net),
            Err(e) => Err(e),
        }
    }

    /// Subscriber-side cancellation, as a receipt: the creator's pending
    /// earnings are fee-split and owed to creator and platform, and the
    /// subscriber is refunded everything never earned, so that
    /// withdrawn-before + net + fee + refund accounts for the whole
    /// committed amount exactly.
    pub fn cancel_receipt(&mut self, stream_id: u64, now: u64) -> (r: Result<
        CancelReceipt,
        StreamError,
    >)
        requires
            wf(old(self)@),
        ensures
            wf(final(self)@),
            final(self)@ == cancel_model(old(self)@, stream_id, now).0,
            r == cancel_model(old(self)@, stream_id, now).1,
    {
        let n = self.streams.len();
        if stream_id == 0 || stream_id > n as u64 {
            return Err(StreamError::StreamNotFound);
        }
        let idx = (stream_id - 1) as usize;
        let s = self.streams[idx];
        if s.status != StreamStatus::Active {
            return Err(StreamError::StreamNotActive);
        }
        let earned_v = match earned(&s, now) {
            Ok(v) => v,
            Err(e) => {
                return Err(e);
            },
        };
        let pending = if earned_v > s.withdrawn {
            earned_v - s.withdrawn
        } else {
            0
        };
        let bps = self.get_fee_bps();
        let p = match fee_split(pending, bps) {
            Ok(p) => p,
            Err(e) => {
                return Err(e);
            },
        };
        proof {
            lemma_earned_le_total(s, now);
        }
        let refund = s.total_amount - s.withdrawn - pending;
        let mut s2 = s;
        s2.withdrawn = s.withdrawn + pending;
        s2.status = StreamStatus::Cancelled;
        self.streams.set(idx, s2);
        proof {
            lemma_wf_update(old(self)@.streams, idx as int, s2);
        }
        Ok(CancelReceipt { creator_net: p.0, fee: p.1, subscriber_refund: refund })
    }

    /// Subscriber-side cancellation. Returns (creator_total,
    /// subscriber_refund), where creator_total is the gross amount debited
    /// from the stream on the creator's behalf — the creator's net payout
    /// plus the platform fee.
    pub fn cancel(&mut self, stream_id: u64, now: u64) -> (r: Result<(i128, i128), StreamError>)
        requires
            wf(old(self)@),
        ensures
            wf(final(self)@),
            final(self)@ == cancel_model(old(self)@, stream_id, now).0,
            r == (match cancel_model(old(self)@, stream_id, now).1 {
                Ok(rec) => Ok::<(i128, i128), StreamError>(
                    ((rec.creator_net + rec.fee) as i128, rec.subscriber_refund),
                ),
                Err(e) => Err::<(i128, i128), StreamError>(e),
            }),
    {
        match self.cancel_receipt(stream_id, now) {
            Ok(rec) => {
                proof {
                    let m = old(self)@;
                    let s = spec_stream_at(m, stream_id);
                    assert(stream_wf(s));
                    lemma_earned_le_total(s, now);
                    crate::fees::lemma_fee_bounds(
                        spec_withdrawable(s, now),
                        spec_fee_bps(m) as int,
                    );
                }
                Ok((rec.creator_net + rec.fee, rec.subscriber_refund))
            },
            Err(e) => Err(e),
        }
    }

    /// Creator-side termination: the creator forfeits all pending
    /// earnings (no fee is taken either) and the stream's whole remaining
    /// balance — committed minus already withdrawn — is refunded to the
    /// subscriber.
    pub fn terminate_stream(&mut self, stream_id: u64, now: u64) -> (r: Result<i128, StreamError>)
        requires
            wf(old(self)@),
        ensures
            wf(final(self)@),
            final(self)@ == terminate_model(old(self)@, stream_id, now).0,
            r == terminate_model(old(self)@, stream_id, now).1,
    {
        let n = self.streams.len();
        if stream_id == 0 || stream_id > n as u64 {
            return Err(StreamError::StreamNotFound);
        }
        let idx = (stream_id - 1) as usize;
        let s = self.streams[idx];
        if s.status != StreamStatus::Active {
            return Err(StreamError::AlreadyTerminated);
        }
        match earned(&s, now) {
            Ok(_) => {},
            Err(e) => {
                return Err(e);
            },
        };
        let refund = s.total_amount - s.withdrawn;
        let mut s2 = s;
        s2.status = StreamStatus::Terminated;
        self.streams.set(idx, s2);
        proof {
            lemma_wf_update(old(self)@.streams, idx as int, s2);
        }
        Ok(refund)
    }

    /// Subscriber-side auto-renewal toggle on an Active stream; no
    /// financial effect.
    pub fn toggle_auto_renew(&mut self, stream_id: u64, enabled: bool) -> (r: Result<
        (),
        StreamError,
    >)
        requires
            wf(old(self)@),
        ensures
            wf(final(self)@),
            final(self)@ == toggle_model(old(self)@, stream_id, enabled).0,
            r == toggle_model(old(self)@, stream_id, enabled).1,
    {
        let n = self.streams.len();
        if stream_id == 0 || stream_id > n as u64 {
            return Err(StreamError::StreamNotFound);
        }
        let idx = (stream_id - 1) as usize;
        let s = self.streams[idx];
        if s.status != StreamStatus::Active {
            return Err(StreamError::StreamNotActive);
        }
        let mut s2 = s;
        s2.auto_renew = enabled;
        self.streams.set(idx, s2);
        proof {
            lemma_wf_update(old(self)@.streams, idx as int, s2);
        }
        Ok(())
    }

    /// Subscriber-side extension: deposits additional value and time, then
    /// re-derives the per-second rate by spreading the remaining balance
    /// evenly over the remaining time — changing the effective payout rate
    /// for elapsed time as well, by design.
    pub fn extend_stream(
        &mut self,
        stream_id: u64,
        additional_amount: i128,
        additional_seconds: u64,
        now: u64,
    ) -> (r: Result<(), StreamError>)
        requires
            wf(old(self)@),
        ensures
            wf(final(self)@),
            final(self)@ == extend_model(
                old(self)@,
                stream_id,
                additional_amount,
                additional_seconds,
                now,
            ).0,
            r == extend_model(old(self)@, stream_id, additional_amount, additional_seconds, now).1,
    {
        let n = self.streams.len();
        if stream_id == 0 || stream_id > n as u64 {
            return Err(StreamError::StreamNotFound);
        }
        let idx = (stream_id - 1) as usize;
        let s = self.streams[idx];
        if s.status != StreamStatus::Active {
            return Err(StreamError::StreamNotActive);
        }
        if additional_amount <= 0 {
            return Err(StreamError::InvalidAmount);
        }
        if additional_seconds == 0 {
            return Err(StreamError::InvalidDuration);
        }
        let total2 = match s.total_amount.checked_add(additional_amount) {
            Some(t) => t,
            None => {
                return Err(StreamError::Overflow);
            },
        };
        let end2 = match s.end_time.checked_add(additional_seconds) {
            Some(e) => e,
            None => {
                return Err(StreamError::Overflow);
            },
        };
        if now >= end2 {
            return Err(StreamError::Overflow);
        }
        let remaining_amount = total2 - s.withdrawn;
        let remaining_time = end2 - now;
        proof {
            lemma_div_is_ordered(0, remaining_amount as int, remaining_time as int);
            lemma_div_nonincreasing(remaining_amount as int, remaining_time as int);
        }
        let rate2 = remaining_amount.checked_div(remaining_time as i128).unwrap();
        let mut s2 = s;
        s2.total_amount = total2;
        s2.end_time = end2;
        s2.duration_seconds = s.duration_seconds + additional_seconds;
        s2.rate_per_second = rate2;
        self.streams.set(idx, s2);
        proof {
            lemma_wf_update(old(self)@.streams, idx as int, s2);
        }
        Ok(())
    }

    /// Creates a new stream: validates the amount and duration, enforces
    /// at most one Active stream per (subscriber, creator) pair, derives
    /// the per-second rate by integer division, assigns the next id and
    /// records the stream as Active from `now` for the given duration. The
    /// host moves the committed amount into custody alongside this
    /// transition. Also reused internally by stream renewal.
    pub fn create_stream(
        &mut self,
        subscriber: AccountId,
        creator: AccountId,
        token: AccountId,
        amount: i128,
        duration_seconds: u64,
        tier_id: u32,
        auto_renew: bool,
        now: u64,
    ) -> (r: Result<u64, StreamError>)
        requires
            wf(old(self)@),
        ensures
            wf(final(self)@),
            final(self)@ == create_model(
                old(self)@,
                subscriber,
                creator,
                token,
                amount,
                duration_seconds,
                tier_id,
                auto_renew,
                now,
            ).0,
            r == create_model(
                old(self)@,
                subscriber,
                creator,
                token,
                amount,
                duration_seconds,
                tier_id,
                auto_renew,
                now,
            ).1,
    {
        if amount <= 0 {
            return Err(StreamError::InvalidAmount);
        }
        if duration_seconds == 0 {
            return Err(StreamError::InvalidDuration);
        }
        if self.has_active_stream(subscriber, creator) {
            return Err(StreamError::StreamAlreadyExists);
        }
        let c = match self.config {
            Some(c) => c,
            None => {
                return Err(StreamError::NotInitialized);
            },
        };
        proof {
            lemma_div_is_ordered(0, amount as int, duration_seconds as int);
            lemma_div_nonincreasing(amount as int, duration_seconds as int);
        }
        let rate = amount.checked_div(duration_seconds as i128).unwrap();
        let end_time = match now.checked_add(duration_seconds) {
            Some(e) => e,
            None => {
                return Err(StreamError::Overflow);
            },
        };
        let next = match c.next_id.checked_add(1) {
            Some(x) => x,
            None => {
                return Err(StreamError::Overflow);
            },
        };
        let s = Stream {
            id: c.next_id,
            subscriber,
            creator,
            token,
            total_amount: amount,
            rate_per_second: rate,
            start_time: now,
            end_time,
            withdrawn: 0,
            status: StreamStatus::Active,
            tier_id,
            platform_wallet: c.platform_wallet,
            auto_renew,
            duration_seconds,
        };
        self.streams.push(s);
        self.config = Some(Config { next_id: next, ..c });
        proof {
            assert forall|i: int| 0 <= i < old(self)@.streams.len() implies !is_active_pair(
                #[trigger] old(self)@.streams[i],
                subscriber,
                creator,
            ) by {
                if is_active_pair(old(self)@.streams[i], subscriber, creator) {
                    assert(spec_has_active_stream(old(self)@, subscriber, creator));
                }
            }
            lemma_wf_push(old(self)@.streams, s);
        }
        Ok(s.id)
    }

    /// Renews an expired or expiring stream with auto-renewal enabled:
    /// frees the old stream's active-pair slot, marks it Completed, and
    /// creates a fresh stream with the same parties, token, amount,
    /// duration and tier. Past the grace period the old stream is only
    /// marked Completed and the renewal fails with `InGracePeriod`; on any
    /// other failure the ledger is left unchanged.
    pub fn renew_stream(&mut self, stream_id: u64, now: u64) -> (r: Result<u64, StreamError>)
        requires
            wf(old(self)@),
        ensures
            wf(final(self)@),
            final(self)@ == renew_model(old(self)@, stream_id, now).0,
            r == renew_model(old(self)@, stream_id, now).1,
    {
        let n = self.streams.len();
        if stream_id == 0 || stream_id > n as u64 {
            return Err(StreamError::StreamNotFound);
        }
        let idx = (stream_id - 1) as usize;
        let s = self.streams[idx];
        if s.status == StreamStatus::Active && now < s.end_time {
            return Err(StreamError::StreamNotActive);
        }
        if !s.auto_renew {
            return Err(StreamError::StreamNotActive);
        }
        let grace = self.get_grace_period_seconds();
        let mut s2 = s;
        s2.status = StreamStatus::Completed;
        if (now as u128) > (s.end_time as u128) + (grace as u128) {
            self.streams.set(idx, s2);
            proof {
                lemma_wf_update(old(self)@.streams, idx as int, s2);
            }
            return Err(StreamError::InGracePeriod);
        }
        self.streams.set(idx, s2);
        proof {
            lemma_wf_update(old(self)@.streams, idx as int, s2);
        }
        match self.create_stream(
            s.subscriber,
            s.creator,
            s.token,
            s.total_amount,
            s.duration_seconds,
            s.tier_id,
            true,
            now,
        ) {
            Ok(new_id) => Ok(new_id),
            Err(e) => {
                self.streams.set(idx, s);
                proof {
                    assert(self@.streams =~= old(self)@.streams);
                    assert(self@ =~= old(self)@);
                }
                Err(e)
            },
        }
    }

    /// Best-effort batch withdrawal over the creator's whole stream
    /// history: attempts a withdrawal on every stream in turn, ignores
    /// per-stream failures, and returns the net payouts summed with
    /// saturation. Never fails as a whole.
    pub fn withdraw_all(&mut self, creator: AccountId, now: u64) -> (r: Result<i128, StreamError>)
        requires
            wf(old(self)@),
        ensures
            wf(final(self)@),
            final(self)@ == withdraw_all_model(old(self)@, creator, now).0,
            r == Ok::<i128, StreamError>(withdraw_all_model(old(self)@, creator, now).1 as i128),
    {
        let ids = self.get_creator_streams(creator);
        let mut total: i128 = 0;
        let mut i: usize = 0;
        while i < ids.len()
            invariant
                i <= ids.len(),
                ids@ == spec_creator_streams(old(self)@, creator),
                wf(self@),
                0 <= total,
                self@ == withdraw_all_upto(old(self)@, ids@, now, i as int).0,
                total as int == withdraw_all_upto(old(self)@, ids@, now, i as int).1,
            decreases ids.len() - i,
        {
            let ghost pre = self@;
            match self.withdraw(ids[i], now) {
                Ok(net) => {
                    proof {
                        let s = spec_stream_at(pre, ids@[i as int]);
                        assert(stream_wf(s));
                        crate::fees::lemma_fee_bounds(
                            spec_withdrawable(s, now),
                            spec_fee_bps(pre) as int,
                        );
                    }
                    total = if net > i128::MAX - total {
                        i128::MAX
                    } else {
                        total + net
                    };
                },
                Err(_) => {},
            }
            i += 1;
        }
        Ok(total)
    }

    /// The creator's total accrued fee-net withdrawable across all their
    /// streams, summed with saturation; streams whose computation fails
    /// contribute nothing.
    pub fn get_total_accrued(&self, creator: AccountId, now: u64) -> (r: i128)
        requires
            wf(self@),
        ensures
            r as int == spec_total_accrued(self@, creator, now),
    {
        let n = self.streams.len();
        let mut total: i128 = 0;
        let mut i: usize = 0;
        while i < n
            invariant
                i <= n,
                n == self.streams.len(),
                wf(self@),
                0 <= total,
                total as int == accrued_upto(self@, creator, now, i as int),
            decreases n - i,
        {
            if self.streams[i].creator == creator {
                match self.get_withdrawable((i as u64) + 1, now) {
                    Ok(v) => {
                        proof {
                            let s = spec_stream_at(self@, (i + 1) as u64);
                            assert(stream_wf(s));
                            if s.status == StreamStatus::Active {
                                crate::fees::lemma_fee_bounds(
                                    spec_withdrawable(s, now),
                                    spec_fee_bps(self@) as int,
                                );
                            }
                        }
                        total = if v > i128::MAX - total {
                            i128::MAX
                        } else {
                            total + v
                        };
                    },
                    Err(_) => {},
                }
            }
            i += 1;
        }
        total
    }

    /// Admin-only: changes the wallet that receives platform fees on
    /// streams created from now on; existing streams keep their snapshot.
    pub fn set_platform_wallet(&mut self, new_wallet: AccountId) -> (r: Result<(), StreamError>)
        requires
            wf(old(self)@),
        ensures
            wf(final(self)@),
            old(self)@.config is None ==> final(self)@ == old(self)@ && r == Err::<
                (),
                StreamError,
            >(StreamError::NotInitialized),
            old(self)@.config is Some ==> final(self)@.streams == old(self)@.streams && final(self)@.config == (Some(
                Config { platform_wallet: new_wallet, ..old(self)@.config.unwrap() },
            )) && r == Ok::<(), StreamError>(()),
    {
        let c = match self.config {
            Some(c) => c,
            None => {
                return Err(StreamError::NotInitialized);
            },
        };
        self.config = Some(Config { platform_wallet: new_wallet, ..c });
        Ok(())
    }

    /// Admin-only: changes the platform fee; rejected with `InvalidFee`
    /// outside [0, 1000] basis points.
    pub fn set_platform_fee(&mut self, fee_bps: i128) -> (r: Result<(), StreamError>)
        requires
            wf(old(self)@),
        ensures
            wf(final(self)@),
            old(self)@.config is None ==> final(self)@ == old(self)@ && r == Err::<
                (),
                StreamError,
            >(StreamError::NotInitialized),
            old(self)@.config is Some && !(0 <= fee_bps <= MAX_PLATFORM_FEE_BPS) ==> final(self)@
                == old(self)@ && r == Err::<(), StreamError>(StreamError::InvalidFee),
            old(self)@.config is Some && 0 <= fee_bps <= MAX_PLATFORM_FEE_BPS ==> final(self)@.streams == old(self)@.streams && final(self)@.config == (Some(
                Config { fee_bps, ..old(self)@.config.unwrap() },
            )) && r == Ok::<(), StreamError>(()),
    {
        let c = match self.config {
            Some(c) => c,
            None => {
                return Err(StreamError::NotInitialized);
            },
        };
        if fee_bps < 0 || fee_bps > MAX_PLATFORM_FEE_BPS {
            return Err(StreamError::InvalidFee);
        }
        self.config = Some(Config { fee_bps, ..c });
        Ok(())
    }

    /// Admin-only: changes the grace period for auto-renewal.
    pub fn set_grace_period(&mut self, grace_seconds: u64) -> (r: Result<(), StreamError>)
        requires
            wf(old(self)@),
        ensures
            wf(final(self)@),
            old(self)@.config is None ==> final(self)@ == old(self)@ && r == Err::<
                (),
                StreamError,
            >(StreamError::NotInitialized),
            old(self)@.config is Some ==> final(self)@.streams == old(self)@.streams && final(self)@.config == (Some(
                Config { grace_period: grace_seconds, ..old(self)@.config.unwrap() },
            )) && r == Ok::<(), StreamError>(()),
    {
        let c = match self.config {
            Some(c) => c,
            None => {
                return Err(StreamError::NotInitialized);
            },
        };
        self.config = Some(Config { grace_period: grace_seconds, ..c });
        Ok(())
    }

    /// Admin-only: hands the admin role to a new identity.
    pub fn set_admin(&mut self, new_admin: AccountId) -> (r: Result<(), StreamError>)
        requires
            wf(old(self)@),
        ensures
            wf(final(self)@),
            old(self)@.config is None ==> final(self)@ == old(self)@ && r == Err::<
                (),
                StreamError,
            >(StreamError::NotInitialized),
            old(self)@.config is Some ==> final(self)@.streams == old(self)@.streams && final(self)@.config == (Some(Config { admin: new_admin, ..old(self)@.config.unwrap() })) && r
                == Ok::<(), StreamError>(()),
    {
        let c = match self.config {
            Some(c) => c,
            None => {
                return Err(StreamError::NotInitialized);
            },
        };
        self.config = Some(Config { admin: new_admin, ..c });
        Ok(())
    }

    /// The creator's current number of Active streams.
    pub fn get_active_subscriber_count(&self, creator: AccountId) -> (r: u64)
        ensures
            r as int == spec_active_subscriber_count(self@, creator),
    {
        let n = self.streams.len();
        let mut count: u64 = 0;
        let mut i: usize = 0;
        while i < n
            invariant
                i <= n,
                n == self.streams.len(),
                count <= i,
                count as int == active_count_upto(self.streams@, creator, i as int),
            decreases n - i,
        {
            let s = &self.streams[i];
            if s.status == StreamStatus::Active && s.creator == creator {
                count = count + 1;
            }
            i += 1;
        }
        count
    }
}

} // verus!

//! Lifecycle behaviour: creation, activation, the one-active-stream-per-
//! pair rule, renewal and its grace period, and terminal transitions.

use streaming_payments::contract::StreamingPaymentsContract;
use streaming_payments::errors::StreamError;
use streaming_payments::stream::StreamStatus;

const ADMIN: u64 = 1;
const WALLET: u64 = 2;
const SUB: u64 = 10;
const CRE: u64 = 20;
const TOKEN: u64 = 5;

fn ledger() -> StreamingPaymentsContract {
    let mut c = StreamingPaymentsContract::new();
    c.initialize(ADMIN, WALLET, None, None);
    c
}

#[test]
fn create_activates_stream() {
    let mut c = ledger();
    let id = c.create_stream(SUB, CRE, TOKEN, 1000, 1000, 0, false, 0).unwrap();
    assert_eq!(id, 1);
    let s = c.get_stream(1).unwrap();
    assert_eq!(s.status, StreamStatus::Active);
    assert_eq!(s.total_amount, 1000);
    assert_eq!(s.rate_per_second, 1);
    assert_eq!(s.start_time, 0);
    assert_eq!(s.end_time, 1000);
    assert_eq!(s.withdrawn, 0);
    assert_eq!(s.platform_wallet, WALLET);
    assert!(c.has_active_stream(SUB, CRE));
    assert_eq!(c.get_active_subscriber_count(CRE), 1);
}

#[test]
fn create_rejects_zero_amount() {
    let mut c = ledger();
    assert_eq!(
        c.create_stream(SUB, CRE, TOKEN, 0, 1000, 0, false, 0),
        Err(StreamError::InvalidAmount)
    );
    assert_eq!(
        c.create_stream(SUB, CRE, TOKEN, -5, 1000, 0, false, 0),
        Err(StreamError::InvalidAmount)
    );
}

#[test]
fn create_rejects_zero_duration() {
    let mut c = ledger();
    assert_eq!(
        c.create_stream(SUB, CRE, TOKEN, 1000, 0, 0, false, 0),
        Err(StreamError::InvalidDuration)
    );
}

#[test]
fn create_requires_initialization() {
    let mut c = StreamingPaymentsContract::new();
    assert_eq!(
        c.create_stream(SUB, CRE, TOKEN, 1000, 1000, 0, false, 0),
        Err(StreamError::NotInitialized)
    );
}

#[test]
fn second_active_stream_for_pair_rejected() {
    let mut c = ledger();
    c.create_stream(SUB, CRE, TOKEN, 1000, 1000, 0, false, 0).unwrap();
    assert_eq!(
        c.create_stream(SUB, CRE, TOKEN, 500, 100, 1, true, 10),
        Err(StreamError::StreamAlreadyExists)
    );
    // A different pair is fine, and ids advance.
    let id2 = c.create_stream(SUB, CRE + 1, TOKEN, 1000, 1000, 0, false, 0).unwrap();
    assert_eq!(id2, 2);
}

#[test]
fn cancel_frees_the_pair_slot() {
    let mut c = ledger();
    c.create_stream(SUB, CRE, TOKEN, 1000, 1000, 0, false, 0).unwrap();
    c.cancel(1, 0).unwrap();
    assert_eq!(c.get_stream(1).unwrap().status, StreamStatus::Cancelled);
    assert!(!c.has_active_stream(SUB, CRE));
    assert_eq!(c.get_active_subscriber_count(CRE), 0);
    // The slot can be reused.
    let id2 = c.create_stream(SUB, CRE, TOKEN, 1000, 1000, 0, false, 100).unwrap();
    assert_eq!(id2, 2);
}

#[test]
fn terminate_frees_the_pair_slot() {
    let mut c = ledger();
    c.create_stream(SUB, CRE, TOKEN, 1000, 1000, 0, false, 0).unwrap();
    c.terminate_stream(1, 500).unwrap();
    assert_eq!(c.get_stream(1).unwrap().status, StreamStatus::Terminated);
    assert!(!c.has_active_stream(SUB, CRE));
    assert_eq!(c.get_active_subscriber_count(CRE), 0);
}

#[test]
fn completing_withdrawal_frees_the_pair_slot() {
    let mut c = ledger();
    c.create_stream(SUB, CRE, TOKEN, 1000, 1000, 0, false, 0).unwrap();
    let net = c.withdraw(1, 1000).unwrap();
    assert_eq!(net, 980);
    assert_eq!(c.get_stream(1).unwrap().status, StreamStatus::Completed);
    assert!(!c.has_active_stream(SUB, CRE));
    assert_eq!(c.get_active_subscriber_count(CRE), 0);
}

#[test]
fn renew_past_grace_period_completes_and_fails() {
    let mut c = ledger();
    c.create_stream(SUB, CRE, TOKEN, 1000, 1000, 0, true, 0).unwrap();
    // end_time = 1000, default grace period = 86400
    assert_eq!(c.renew_stream(1, 1000 + 86400 + 1), Err(StreamError::InGracePeriod));
    assert_eq!(c.get_stream(1).unwrap().status, StreamStatus::Completed);
}

#[test]
fn renew_spawns_a_fresh_stream() {
    let mut c = ledger();
    c.create_stream(SUB, CRE, TOKEN, 1000, 1000, 0, true, 0).unwrap();
    let new_id = c.renew_stream(1, 1200).unwrap();
    assert_eq!(new_id, 2);
    assert_eq!(c.get_stream(1).unwrap().status, StreamStatus::Completed);
    let s2 = c.get_stream(2).unwrap();
    assert_eq!(s2.status, StreamStatus::Active);
    assert_eq!(s2.total_amount, 1000);
    assert_eq!(s2.start_time, 1200);
    assert_eq!(s2.end_time, 2200);
    assert!(s2.auto_renew);
    assert!(c.has_active_stream(SUB, CRE));
}

#[test]
fn renew_requires_auto_renew() {
    let mut c = ledger();
    c.create_stream(SUB, CRE, TOKEN, 1000, 1000, 0, false, 0).unwrap();
    assert_eq!(c.renew_stream(1, 1200), Err(StreamError::StreamNotActive));
}

#[test]
fn renew_rejects_a_running_stream() {
    let mut c = ledger();
    c.create_stream(SUB, CRE, TOKEN, 1000, 1000, 0, true, 0).unwrap();
    assert_eq!(c.renew_stream(1, 500), Err(StreamError::StreamNotActive));
}

#[test]
fn toggle_auto_renew_flips_the_flag() {
    let mut c = ledger();
    c.create_stream(SUB, CRE, TOKEN, 1000, 1000, 0, false, 0).unwrap();
    assert!(!c.get_stream(1).unwrap().auto_renew);
    c.toggle_auto_renew(1, true).unwrap();
    assert!(c.get_stream(1).unwrap().auto_renew);
    c.toggle_auto_renew(1, false).unwrap();
    assert!(!c.get_stream(1).unwrap().auto_renew);
    c.cancel(1, 0).unwrap();
    assert_eq!(c.toggle_auto_renew(1, true), Err(StreamError::StreamNotActive));
}

#[test]
fn terminate_twice_rejected() {
    let mut c = ledger();
    c.create_stream(SUB, CRE, TOKEN, 1000, 1000, 0, false, 0).unwrap();
    c.terminate_stream(1, 0).unwrap();
    assert_eq!(c.terminate_stream(1, 0), Err(StreamError::AlreadyTerminated));
}

#[test]
fn unknown_stream_id_not_found() {
    let mut c = ledger();
    assert_eq!(c.get_stream(1), Err(StreamError::StreamNotFound));
    assert_eq!(c.get_withdrawable(7, 0), Err(StreamError::StreamNotFound));
    assert_eq!(c.withdraw(7, 0), Err(StreamError::StreamNotFound));
    assert_eq!(c.cancel(0, 0), Err(StreamError::StreamNotFound));
    assert_eq!(c.terminate_stream(3, 0), Err(StreamError::StreamNotFound));
}

#[test]
fn address_histories_are_append_only() {
    let mut c = ledger();
    c.create_stream(SUB, CRE, TOKEN, 1000, 1000, 0, false, 0).unwrap();
    c.create_stream(SUB, CRE + 1, TOKEN, 1000, 1000, 0, false, 0).unwrap();
    c.cancel(1, 0).unwrap();
    c.create_stream(SUB, CRE, TOKEN, 1000, 1000, 0, false, 50).unwrap();
    assert_eq!(c.get_subscriber_streams(SUB), vec![1, 2, 3]);
    assert_eq!(c.get_creator_streams(CRE), vec![1, 3]);
    assert_eq!(c.get_creator_streams(CRE + 1), vec![2]);
    assert_eq!(c.get_subscriber_streams(999), Vec::<u64>::new());
}

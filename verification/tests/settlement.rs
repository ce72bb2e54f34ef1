//! Settlement behaviour: withdrawal receipts, cancellation and termination
//! payouts, exact conservation of the committed amount, batch withdrawal,
//! total accrual, and the admin operations.

use streaming_payments::contract::StreamingPaymentsContract;
use streaming_payments::errors::StreamError;
use streaming_payments::model::{CancelReceipt, WithdrawReceipt};
use streaming_payments::stream::StreamStatus;

const ADMIN: u64 = 1;
const WALLET: u64 = 2;
const SUB: u64 = 10;
const SUB2: u64 = 11;
const CRE: u64 = 20;
const TOKEN: u64 = 5;

fn ledger() -> StreamingPaymentsContract {
    let mut c = StreamingPaymentsContract::new();
    c.initialize(ADMIN, WALLET, None, None);
    c
}

#[test]
fn immediate_cancel_refunds_everything() {
    // create then cancel at t = 0: nothing earned, full refund.
    let mut c = ledger();
    c.create_stream(SUB, CRE, TOKEN, 1000, 1000, 0, false, 0).unwrap();
    assert_eq!(c.cancel(1, 0), Ok((0, 1000)));
}

#[test]
fn withdraw_receipt_splits_gross_exactly() {
    let mut c = ledger();
    c.create_stream(SUB, CRE, TOKEN, 1000, 1000, 0, false, 0).unwrap();
    let rec = c.withdraw_receipt(1, 500).unwrap();
    assert_eq!(rec, WithdrawReceipt { net: 490, fee: 10 });
    let s = c.get_stream(1).unwrap();
    // withdrawn tracks the gross amount, not the creator's net receipt.
    assert_eq!(s.withdrawn, 500);
    assert_eq!(s.status, StreamStatus::Active);
}

#[test]
fn withdraw_twice_needs_new_accrual() {
    let mut c = ledger();
    c.create_stream(SUB, CRE, TOKEN, 1000, 1000, 0, false, 0).unwrap();
    assert_eq!(c.withdraw(1, 500), Ok(490));
    assert_eq!(c.withdraw(1, 500), Err(StreamError::InsufficientBalance));
    assert_eq!(c.withdraw(1, 750), Ok(245));
    assert_eq!(c.get_stream(1).unwrap().withdrawn, 750);
}

#[test]
fn completed_stream_accepts_one_final_withdraw() {
    let mut c = ledger();
    c.create_stream(SUB, CRE, TOKEN, 1000, 1000, 0, false, 0).unwrap();
    c.withdraw(1, 500).unwrap();
    // Window elapses; the final withdrawal completes the stream.
    assert_eq!(c.withdraw(1, 1500), Ok(490));
    assert_eq!(c.get_stream(1).unwrap().status, StreamStatus::Completed);
    assert_eq!(c.withdraw(1, 2000), Err(StreamError::InsufficientBalance));
    // A cancelled stream accepts none.
    c.create_stream(SUB, CRE, TOKEN, 1000, 1000, 0, false, 2000).unwrap();
    c.cancel(2, 2100).unwrap();
    assert_eq!(c.withdraw(2, 2200), Err(StreamError::StreamNotActive));
}

#[test]
fn cancel_conserves_committed_amount() {
    let mut c = ledger();
    c.create_stream(SUB, CRE, TOKEN, 1000, 1000, 0, false, 0).unwrap();
    c.withdraw(1, 500).unwrap();
    let withdrawn_before = c.get_stream(1).unwrap().withdrawn;
    let rec = c.cancel_receipt(1, 700).unwrap();
    // pending 200 splits into 196 + 4; refund covers the never-earned 300.
    assert_eq!(rec, CancelReceipt { creator_net: 196, fee: 4, subscriber_refund: 300 });
    assert_eq!(
        withdrawn_before + rec.creator_net + rec.fee + rec.subscriber_refund,
        1000
    );
    // The tuple form bundles net + fee as the creator total.
    let mut c2 = ledger();
    c2.create_stream(SUB, CRE, TOKEN, 1000, 1000, 0, false, 0).unwrap();
    c2.withdraw(1, 500).unwrap();
    assert_eq!(c2.cancel(1, 700), Ok((200, 300)));
}

#[test]
fn terminate_forfeits_pending_earnings() {
    let mut c = ledger();
    c.create_stream(SUB, CRE, TOKEN, 1000, 1000, 0, false, 0).unwrap();
    c.withdraw(1, 400).unwrap();
    // At t = 600 the creator has 200 pending but forfeits it all.
    let refund = c.terminate_stream(1, 600).unwrap();
    assert_eq!(refund, 600);
    let s = c.get_stream(1).unwrap();
    assert_eq!(s.withdrawn + refund, s.total_amount);
    assert_eq!(s.status, StreamStatus::Terminated);
}

#[test]
fn withdraw_all_sums_across_streams() {
    let mut c = ledger();
    c.create_stream(SUB, CRE, TOKEN, 1000, 1000, 0, false, 0).unwrap();
    c.create_stream(SUB2, CRE, TOKEN, 2000, 1000, 0, false, 0).unwrap();
    // stream 1 nets 490, stream 2 nets floor(1000 * 0.98) = 980
    assert_eq!(c.get_total_accrued(CRE, 500), 1470);
    assert_eq!(c.withdraw_all(CRE, 500), Ok(1470));
    assert_eq!(c.get_stream(1).unwrap().withdrawn, 500);
    assert_eq!(c.get_stream(2).unwrap().withdrawn, 1000);
    // Nothing left right after; failures are skipped silently.
    assert_eq!(c.withdraw_all(CRE, 500), Ok(0));
    assert_eq!(c.get_total_accrued(CRE, 500), 0);
}

#[test]
fn withdraw_all_ignores_inactive_streams() {
    let mut c = ledger();
    c.create_stream(SUB, CRE, TOKEN, 1000, 1000, 0, false, 0).unwrap();
    c.create_stream(SUB2, CRE, TOKEN, 1000, 1000, 0, false, 0).unwrap();
    c.cancel(1, 0).unwrap();
    assert_eq!(c.withdraw_all(CRE, 500), Ok(490));
    assert_eq!(c.get_stream(1).unwrap().withdrawn, 0);
}

#[test]
fn total_accrued_skips_other_creators() {
    let mut c = ledger();
    c.create_stream(SUB, CRE, TOKEN, 1000, 1000, 0, false, 0).unwrap();
    c.create_stream(SUB, CRE + 1, TOKEN, 2000, 1000, 0, false, 0).unwrap();
    assert_eq!(c.get_total_accrued(CRE, 500), 490);
    assert_eq!(c.get_total_accrued(CRE + 1, 500), 980);
    assert_eq!(c.get_total_accrued(999, 500), 0);
}

#[test]
fn admin_operations_update_configuration() {
    let mut c = ledger();
    assert_eq!(c.get_fee_bps(), 200);
    assert_eq!(c.get_grace_period_seconds(), 86400);
    c.set_platform_fee(300).unwrap();
    assert_eq!(c.get_fee_bps(), 300);
    assert_eq!(c.set_platform_fee(1001), Err(StreamError::InvalidFee));
    assert_eq!(c.set_platform_fee(-1), Err(StreamError::InvalidFee));
    assert_eq!(c.get_fee_bps(), 300);
    c.set_grace_period(3600).unwrap();
    assert_eq!(c.get_grace_period_seconds(), 3600);
    c.set_platform_wallet(77).unwrap();
    c.set_admin(88).unwrap();
    let cfg = c.config.unwrap();
    assert_eq!(cfg.platform_wallet, 77);
    assert_eq!(cfg.admin, 88);
}

#[test]
fn admin_operations_require_initialization() {
    let mut c = StreamingPaymentsContract::new();
    assert_eq!(c.set_platform_fee(300), Err(StreamError::NotInitialized));
    assert_eq!(c.set_platform_wallet(77), Err(StreamError::NotInitialized));
    assert_eq!(c.set_grace_period(3600), Err(StreamError::NotInitialized));
    assert_eq!(c.set_admin(88), Err(StreamError::NotInitialized));
    // Fee and grace-period reads fall back to the documented defaults.
    assert_eq!(c.get_fee_bps(), 200);
    assert_eq!(c.get_grace_period_seconds(), 86400);
}

#[test]
fn new_platform_wallet_applies_to_new_streams_only() {
    let mut c = ledger();
    c.create_stream(SUB, CRE, TOKEN, 1000, 1000, 0, false, 0).unwrap();
    c.set_platform_wallet(77).unwrap();
    c.create_stream(SUB2, CRE, TOKEN, 1000, 1000, 0, false, 0).unwrap();
    assert_eq!(c.get_stream(1).unwrap().platform_wallet, WALLET);
    assert_eq!(c.get_stream(2).unwrap().platform_wallet, 77);
}

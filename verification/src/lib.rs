//! A verified model of a time-based payment-streaming ledger.
//!
//! A subscriber deposits a lump sum that accrues to a creator continuously
//! over a fixed duration at a fixed per-second rate, with a platform fee
//! deducted from every payout and pro-rated settlement on early termination.
//! The host environment (persistence, authorization, token transfer, event
//! emission, clock) is kept outside; every function here is a pure state
//! transition over plain values, with its behaviour stated in contracts.

pub mod accrual;
pub mod contract;
pub mod errors;
pub mod fees;
pub mod laws;
pub mod model;
pub mod stream;

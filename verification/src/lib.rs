//! A small transaction engine for a stream of ledger events.
//!
//! Events (deposits, withdrawals, disputes, resolves, chargebacks) arrive one
//! at a time, keyed by a client id and a transaction id, and are applied to an
//! in-memory ledger of client accounts and deposit records. Monetary amounts
//! are fixed-precision decimals held as signed integers counting ten
//! thousandths of a unit, so the balance invariant `total == available + held`
//! holds exactly.

pub mod account;
pub mod chargeback;
pub mod deposit;
pub mod dispute;
pub mod errors;
pub mod laws;
pub mod money;
pub mod processor;
pub mod record;
pub mod resolve;
pub mod state;
pub mod tx;
pub mod withdrawal;

//! A parking ledger: hourly tickets, annual passes, fines, revenue and a
//! two-admin withdrawal protocol, kept as an explicit state value and
//! verified with Verus.
//!
//! The ledger never reads a clock or a store of its own: every operation takes
//! the state it works on and, where time matters, the current timestamp.

pub mod admin;
pub mod annual;
pub mod errors;
pub mod fines;
pub mod flipper;
pub mod fuzzy;
pub mod hourly;
pub mod keys;
pub mod laws;
pub mod ledger;
pub mod notepad;
pub mod notepadv2;
pub mod storage;
pub mod sweep;
pub mod table;
pub mod ttl;
pub mod types;

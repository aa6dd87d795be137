//! On-ledger records of creators and the tips they receive.
//!
//! A creator registers once, under the identity that controls the creator's
//! wallet. A tip moves value from a tipper to that wallet, leaves a record of
//! its own, and is counted in the creator's record. Every record lies at an
//! address derived from what it belongs to, so it is found again without an
//! index, and nothing is created twice.
//!
//! - `state`: the records and the notice, and what they stand for.
//! - `layout`: the bytes of the records as they lie on the ledger.
//! - `error`: the refusals and their kinds.
//! - `address`: the derived addresses.
//! - `instructions`: the two instructions, on the records they are handed.
//! - `program`: the ledger, and the two instructions as transitions on it.
//! - `laws`: what holds of the transitions, whatever the ledger.
//! - `store`: the map from addresses that the ledger is kept in.
//! - `wallet`: the decisions of the service that links a wallet to a profile.

pub mod address;
pub mod error;
pub mod instructions;
pub mod laws;
pub mod layout;
pub mod program;
pub mod state;
pub mod store;
pub mod wallet;

//! Transactional core of a token-sale (IDO) platform with a tiered
//! staking-deposit ladder.
//!
//! Every entry point is a pure state-machine step: it takes the persistent
//! store, validates, mutates, and returns the ledger operations the host must
//! execute.  The host (storage backend, oracle and ledger queries, message
//! encoding) lives outside this crate and hands in plain values.

pub mod band;
pub mod compact;
pub mod contract;
pub mod error;
pub mod laws;
pub mod msg;
pub mod state;
pub mod store;
pub mod utils;

pub use compact::remove_sorted_indices;

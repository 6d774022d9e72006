//! Pari-mutuel prediction market with confidential bet sides.
//!
//! A market poses a yes/no question and collects stakes into a shared pool.
//! Each bettor's chosen side is held only as an opaque handle to a value kept
//! by an external confidential-compute oracle; the pool bookkeeping uses a
//! plaintext side flag that the design trusts to match the handle. At bet time
//! the payout is locked from the pool state immediately after the bet and is
//! never recomputed. Once the market resolves, a position is settled by an
//! encrypted winner comparison, a decryption proof, and a payout clamped to
//! the vault balance.
//!
//! This crate holds the market and position state machine and its settlement
//! arithmetic. The ledger that stores accounts and moves native currency, and
//! the oracle that encrypts, compares and verifies, are collaborators outside
//! this crate: callers perform those effects and hand the resulting plain
//! values (handles, verification results, live vault balances) to the
//! functions here.

pub mod bet;
pub mod error;
pub mod laws;
pub mod lifecycle;
pub mod settle;
pub mod state;

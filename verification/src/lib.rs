//! A binary-outcome prediction-market ledger.
//!
//! The ledger tracks wagers placed by many independent parties into two
//! opposing pools, resolves a single true outcome after a deadline, and
//! computes each party's proportional payout from the combined pool, while
//! guaranteeing that no stake is paid out twice and that no payout exceeds
//! the available escrow.
//!
//! The persistent keyed account store, caller authentication, the clock and
//! the value-transfer primitive are external collaborators: every operation
//! here takes their readings as plain values and returns the new ledger
//! state, so the host only moves balances and persists what it is handed.

pub mod error;
pub mod state;

pub mod bet;
pub mod claim;
pub mod create_market;
pub mod laws;
pub mod resolve;

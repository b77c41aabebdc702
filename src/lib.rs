//! Transactional core of a binary-outcome prediction market: market lifecycle,
//! order escrow, opening and closing trades, and settlement accounting.

pub mod errors;
pub mod state;
pub mod math;
pub mod ledger;
pub mod orders;
pub mod matching;
pub mod closing;
pub mod market;
pub mod settlement;
pub mod config;

//! A dice wagering engine: wagers are placed against an escrow ledger and
//! settled exactly once when the randomness provider answers.

pub mod config;
pub mod contract;
pub mod error;
pub mod execute;
pub mod lifecycle;
pub mod math;
pub mod msg;
pub mod query;
pub mod responses;
pub mod state;
pub mod storage;
pub mod text;
pub mod token;

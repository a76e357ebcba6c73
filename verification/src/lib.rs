//! A two-option prediction-market ledger: pools accumulate stakes per option
//! and per settlement token, an authority grades each pool once, and settled
//! bets are paid out by a deterministic integer payout rule.  A companion
//! decoder reconstructs the market's events and instruction calls from raw
//! transaction logs and payloads.

pub mod decode;
pub mod errors;
pub mod events;
pub mod laws;
pub mod logscan;
pub mod ops;
pub mod pb;
pub mod payout;
pub mod stream;
pub mod types;
pub mod wire;
pub mod wrappers;

//! Contest-and-voting escrow engine: paid entries, stake-weighted paid votes,
//! a treasury that splits every payment between the platform and the prize
//! pool, and a one-shot settlement that pays out the pool to ranked winners.
//!
//! Every operation takes the records it touches, checks its guards, and either
//! applies all of its effects or returns a typed error leaving the records as
//! they were. Value transfers are returned as plain descriptions; the caller
//! performs them and commits the records only when all of them succeeded.

pub mod key;
pub mod constants;
pub mod errors;
pub mod state;
pub mod ledger;
pub mod context;
pub mod contest;
pub mod entry;
pub mod voting;
pub mod treasury;
pub mod laws;
pub mod store;

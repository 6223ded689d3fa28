//! An on-chain reputation counter: an authorised party raises the score kept
//! for an address, and anyone reads it back.
//!
//! `score` holds the rules on plain values; `contract` applies them to the
//! persistent storage of the host ledger.
pub mod contract;
pub mod score;

pub use contract::ReputationContract;
pub use score::ReputationError;

//! State engine of a heads-up poker hand in which no card is opened without a proof:
//! mutual seed commitment, proof-gated hole and community cards, betting, timeouts
//! and showdown settlement.

pub mod constants;
pub mod errors;
pub mod utils;
pub mod state;
pub mod instructions;

pub mod protocol;

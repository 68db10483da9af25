//! Single-item auction logic: account derivation, the auction record, the
//! bid / end / claim state machine and the custody transfer plan.

pub mod address;
pub mod errors;
pub mod pda;
pub mod rules;
pub mod account;
pub mod processor;
pub mod custody;
pub mod laws;
pub mod instruction;

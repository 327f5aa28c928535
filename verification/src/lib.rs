//! A bridging adapter between a host ledger and a cross-chain messaging
//! protocol: the instruction codec, the account-order contract, and the
//! executor that decides which sub-calls an invocation issues.

pub mod accounts;
pub mod error;
pub mod instruction;
pub mod message;
pub mod processor;
pub mod state;
pub mod subcall;
pub mod wire;

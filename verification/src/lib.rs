//! On-chain logic of a raffle program: its error codes, instruction decoding,
//! account state layouts, and the decisions that each instruction makes.

pub mod bytes;
pub mod error;
pub mod state;
pub mod instruction;
pub mod pda;
pub mod processor;
pub mod execution;
pub mod laws;
pub mod outcomes;

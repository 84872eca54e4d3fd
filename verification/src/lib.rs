//! An escrow program for token swaps, as a verified library.
//!
//! A maker deposits tokens of mint A into a vault owned by an escrow account
//! and records how many tokens of mint B it wants in return (`Make`). A taker
//! pays that amount and receives the whole vault (`Take`); the maker can
//! instead get the vault back (`Refund`).
//!
//! The library decides; the runtime acts. Each instruction is a state
//! machine (see [`processor`]): it starts from the instruction's accounts and
//! data and, step by step, names the next outside action (derive an address,
//! read an account, invoke the token or system program, ...) and takes back
//! its outcome, until it finishes with the instruction's result.

pub mod codec;
pub mod constants;
pub mod error;
pub mod instruction;
pub mod laws;
pub mod processor;
pub mod state;

pub use constants::ID;

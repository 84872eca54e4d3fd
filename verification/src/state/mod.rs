//! The escrow account's state and its byte layout.
pub mod escrow;

pub use escrow::{Escrow, ESCROW_LEN};

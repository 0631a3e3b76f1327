//! Command-line client core for a lump-oriented storage service.
//!
//! The verified library holds the identifier codec, the argument
//! validation, the four-way command dispatch with its output
//! formatting, and the decision logic of the busy-poll wait adapter.
//! Network I/O and the cooperative execution engine live outside it.

pub mod command;
pub mod decimal;
pub mod lump_id;
pub mod output;
pub mod wait;

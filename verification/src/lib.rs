//! A last-in-first-out container with nested, snapshot-based transactions.
//!
//! [`TxStack`] keeps a non-empty list of layers. The last layer is the live
//! one; every layer beneath it is a checkpoint that a rollback returns to.

pub mod laws;
pub mod model;
pub mod stack;

pub use stack::TxStack;

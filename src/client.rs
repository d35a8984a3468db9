//! The client's arguments.
pub mod args;

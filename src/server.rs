//! The server: its arguments and the decisions of its accept loop.

pub mod args;
pub mod accept;

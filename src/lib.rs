//! A text-chat service: a binary wire protocol, the handshake that admits a
//! client, cooperative cancellation, and the decisions of the server's accept loop.
pub mod cancellation;
pub mod client;
pub mod protocol;
pub mod server;
pub mod startup;

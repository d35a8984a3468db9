//! The wire protocol: packets, the messages that carry them, their byte
//! encodings, and the handshake that opens a session.
pub mod client_handshake;
pub mod client_message;
pub mod client_packet;
pub mod error;
pub mod laws;
pub mod message;
pub mod serializable;
pub mod server_handshake;
pub mod server_message;
pub mod server_packet;
pub mod text;

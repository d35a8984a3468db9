//! The client's side of the handshake: one request out, one reply in.
//!
//! The connection is written and read by the caller; these functions decide what to
//! send and how the handshake ends given what was read.
use vstd::prelude::*;

use crate::protocol::client_packet::Authenticate;
use crate::protocol::client_message::ClientMessageView;
use crate::protocol::error::{HandshakeError, MessageStreamError};
use crate::protocol::message::{Message, MessageView};
use crate::protocol::serializable::Packet;
use crate::protocol::server_message::{self, ServerMessageView};
use crate::protocol::server_packet::Authenticated;

verus! {

/// What the client asks for: a username.
#[derive(Clone, Debug, PartialEq)]
pub struct HandshakeArguments {
    pub username: String,
}

impl HandshakeArguments {
    pub fn new(username: String) -> (r: HandshakeArguments)
        ensures
            r.username == username,
    {
        HandshakeArguments { username }
    }
}

/// A completed handshake: the username the server admitted.
#[derive(Clone, Debug, PartialEq)]
pub struct Handshake {
    pub username: String,
}

impl Handshake {
    pub fn new(username: String) -> (r: Handshake)
        ensures
            r.username == username,
    {
        Handshake { username }
    }
}

/// The request the client sends first.
pub fn authentication_request(arguments: &HandshakeArguments) -> (r: Message)
    ensures
        r@ == MessageView::Client(ClientMessageView::Authenticate(arguments.username@)),
{
    Authenticate::new(arguments.username.clone()).to_message()
}

/// Reads the server's reply: `Authenticated` admits, `End` refuses with its reason,
/// and anything else is unexpected.
pub fn receive_authentication_result(received: Result<Message, MessageStreamError>) -> (r: Result<
    Authenticated,
    HandshakeError,
>)
    ensures
        match received {
            Ok(m) => match m@ {
                MessageView::Server(ServerMessageView::Authenticated) => r is Ok,
                MessageView::Server(ServerMessageView::End(reason)) => r matches Err(
                    HandshakeError::AuthenticationFailed(x),
                ) && x@ == reason,
                _ => r matches Err(HandshakeError::UnexpectedMessage(x)) && x == m,
            },
            Err(e) => r matches Err(HandshakeError::MessageStreamError(x)) && x == e,
        },
{
    match received {
        Ok(Message::Server(server_message::Message::Authenticated(authenticated))) => Ok(
            authenticated,
        ),
        Ok(Message::Server(server_message::Message::End(end))) => Err(
            HandshakeError::AuthenticationFailed(end.reason),
        ),
        Ok(message) => Err(HandshakeError::UnexpectedMessage(message)),
        Err(err) => Err(HandshakeError::MessageStreamError(err)),
    }
}

/// How the handshake ends: admitted under the requested username, or the error.
pub fn conclude(arguments: HandshakeArguments, result: Result<Authenticated, HandshakeError>) -> (r:
    Result<Handshake, HandshakeError>)
    ensures
        match result {
            Ok(_) => r matches Ok(h) && h.username == arguments.username,
            Err(e) => r matches Err(x) && x == e,
        },
{
    match result {
        Ok(_) => Ok(Handshake::new(arguments.username)),
        Err(err) => Err(err),
    }
}

} // verus!

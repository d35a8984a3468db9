//! The server's side of the handshake: one request in, one reply out.
//!
//! The connection is read and written by the caller; these functions decide, from
//! what was read, what to send and how the handshake ends.
use vstd::prelude::*;

use crate::protocol::client_message::{self, ClientMessageView};
use crate::protocol::client_packet::Authenticate;
use crate::protocol::error::{HandshakeError, MessageStreamError};
use crate::protocol::message::{Message, MessageView};
use crate::protocol::serializable::Packet;
use crate::protocol::server_message::ServerMessageView;
use crate::protocol::server_packet::{Authenticated, End};

verus! {

/// What the server knows when a client asks to be admitted: the usernames held by
/// the sessions already open.
#[derive(Clone, Debug)]
pub struct HandshakeArguments {
    pub taken_usernames: Vec<String>,
}

impl HandshakeArguments {
    pub fn new(taken_usernames: Vec<String>) -> (r: HandshakeArguments)
        ensures
            r.taken_usernames == taken_usernames,
    {
        HandshakeArguments { taken_usernames }
    }
}

/// A completed handshake: the username the client was admitted under.
#[derive(Clone, Debug, PartialEq)]
pub struct Handshake {
    pub username: String,
}

impl Handshake {
    pub fn new(username: String) -> (r: Handshake)
        ensures
            r.username == username,
    {
        Handshake { username }
    }
}

/// Whether one of the given usernames is the given one.
pub open spec fn is_taken(taken: Seq<String>, username: Seq<char>) -> bool {
    exists|i: int| 0 <= i < taken.len() && #[trigger] taken[i]@ == username
}

/// The reason given when a username is refused.
pub open spec fn spec_taken_reason() -> Seq<char> {
    "Username already taken"@
}

/// The server's reply to a request, and how the handshake ends once it is sent.
#[derive(Debug)]
pub struct HandshakeReply {
    pub response: Message,
    pub outcome: Result<Handshake, HandshakeError>,
}

/// Reads the request: only a client's `Authenticate` opens a handshake.
pub fn receive_authentication(received: Result<Message, MessageStreamError>) -> (r: Result<
    Authenticate,
    HandshakeError,
>)
    ensures
        match received {
            Ok(m) => match m@ {
                MessageView::Client(ClientMessageView::Authenticate(username)) => r matches Ok(
                    a,
                ) && a@ == username,
                _ => r matches Err(HandshakeError::UnexpectedMessage(x)) && x == m,
            },
            Err(e) => r matches Err(HandshakeError::MessageStreamError(x)) && x == e,
        },
{
    match received {
        Ok(Message::Client(client_message::Message::Authenticate(authenticate))) => Ok(
            authenticate,
        ),
        Ok(message) => Err(HandshakeError::UnexpectedMessage(message)),
        Err(err) => Err(HandshakeError::MessageStreamError(err)),
    }
}

/// Whether the username is held by an open session.
pub fn is_username_taken(arguments: &HandshakeArguments, username: &String) -> (r: bool)
    ensures
        r == is_taken(arguments.taken_usernames@, username@),
{
    let taken = &arguments.taken_usernames;
    let mut i: usize = 0;
    while i < taken.len()
        invariant
            taken@ == arguments.taken_usernames@,
            i <= taken@.len(),
            forall|j: int| 0 <= j < i ==> #[trigger] taken@[j]@ != username@,
        decreases taken@.len() - i,
    {
        if taken[i] == *username {
            assert(taken@[i as int]@ == username@);
            return true;
        }
        i = i + 1;
    }
    false
}

/// Decides the reply to a request: `End` with the refusal's reason when the username
/// is taken, `Authenticated` otherwise.
pub fn reply(authenticate: Authenticate, arguments: &HandshakeArguments) -> (r: HandshakeReply)
    ensures
        is_taken(arguments.taken_usernames@, authenticate@) ==> {
            &&& r.response@ == MessageView::Server(ServerMessageView::End(spec_taken_reason()))
            &&& r.outcome matches Err(HandshakeError::AuthenticationFailed(reason))
            &&& reason@ == spec_taken_reason()
        },
        !is_taken(arguments.taken_usernames@, authenticate@) ==> {
            &&& r.response@ == MessageView::Server(ServerMessageView::Authenticated)
            &&& r.outcome matches Ok(h)
            &&& h.username@ == authenticate@
        },
{
    if is_username_taken(arguments, &authenticate.username) {
        let response = End::new("Username already taken".to_owned()).to_message();
        let outcome = Err(HandshakeError::AuthenticationFailed("Username already taken".to_owned()));
        HandshakeReply { response, outcome }
    } else {
        let response = Authenticated::new().to_message();
        HandshakeReply { response, outcome: Ok(Handshake::new(authenticate.username)) }
    }
}

/// How the handshake ends once the reply was written: a failed write ends it.
pub fn conclude(sent: Result<(), MessageStreamError>, outcome: Result<Handshake, HandshakeError>) -> (r:
    Result<Handshake, HandshakeError>)
    ensures
        match sent {
            Ok(_) => r == outcome,
            Err(e) => r matches Err(HandshakeError::MessageStreamError(x)) && x == e,
        },
{
    match sent {
        Ok(_) => outcome,
        Err(err) => Err(HandshakeError::MessageStreamError(err)),
    }
}

} // verus!

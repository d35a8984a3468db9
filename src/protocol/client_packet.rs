//! The packets a client sends. Each carries one string, which takes all the bytes
//! of its payload.
use vstd::prelude::*;
use vstd::utf8::*;

use crate::protocol::client_message::{self, ClientMessageView};
use crate::protocol::error::{MessageParseError, ParseErrorView};
use crate::protocol::message::{Message, MessageView};
use crate::protocol::serializable::{Packet, Serializable};
use crate::protocol::text::{decode_remainder, spec_decode_remainder, text_bytes};

verus! {

/// Asks the server to admit the client under a username.
#[derive(Clone, Debug, PartialEq)]
pub struct Authenticate {
    pub username: String,
}

impl Authenticate {
    pub fn new(username: String) -> (r: Authenticate)
        ensures
            r.username == username,
    {
        Authenticate { username }
    }
}

impl View for Authenticate {
    type V = Seq<char>;

    open spec fn view(&self) -> Seq<char> {
        self.username@
    }
}

impl Serializable for Authenticate {
    open spec fn spec_encode(v: Seq<char>) -> Seq<u8> {
        encode_utf8(v)
    }

    open spec fn spec_decode(bytes: Seq<u8>) -> Result<Seq<char>, ParseErrorView> {
        spec_decode_remainder(bytes, "Username"@)
    }

    fn as_bytes(&self) -> (r: Vec<u8>) {
        text_bytes(&self.username)
    }

    fn from_bytes(bytes: &[u8]) -> (r: Result<Authenticate, MessageParseError>) {
        match decode_remainder(bytes, "Username") {
            Ok(username) => Ok(Authenticate::new(username)),
            Err(err) => Err(err),
        }
    }
}

impl Packet for Authenticate {
    open spec fn spec_to_message(v: Seq<char>) -> MessageView {
        MessageView::Client(ClientMessageView::Authenticate(v))
    }

    fn to_message(self) -> (r: Message) {
        Message::Client(client_message::Message::Authenticate(self))
    }
}

/// A chat line the client sends.
#[derive(Clone, Debug, PartialEq)]
pub struct Chat {
    pub message: String,
}

impl Chat {
    pub fn new(message: String) -> (r: Chat)
        ensures
            r.message == message,
    {
        Chat { message }
    }
}

impl View for Chat {
    type V = Seq<char>;

    open spec fn view(&self) -> Seq<char> {
        self.message@
    }
}

impl Serializable for Chat {
    open spec fn spec_encode(v: Seq<char>) -> Seq<u8> {
        encode_utf8(v)
    }

    open spec fn spec_decode(bytes: Seq<u8>) -> Result<Seq<char>, ParseErrorView> {
        spec_decode_remainder(bytes, "Message"@)
    }

    fn as_bytes(&self) -> (r: Vec<u8>) {
        text_bytes(&self.message)
    }

    fn from_bytes(bytes: &[u8]) -> (r: Result<Chat, MessageParseError>) {
        match decode_remainder(bytes, "Message") {
            Ok(message) => Ok(Chat::new(message)),
            Err(err) => Err(err),
        }
    }
}

impl Packet for Chat {
    open spec fn spec_to_message(v: Seq<char>) -> MessageView {
        MessageView::Client(ClientMessageView::Chat(v))
    }

    fn to_message(self) -> (r: Message) {
        Message::Client(client_message::Message::Chat(self))
    }
}

/// The client closes the session, giving a reason.
#[derive(Clone, Debug, PartialEq)]
pub struct End {
    pub reason: String,
}

impl End {
    pub fn new(reason: String) -> (r: End)
        ensures
            r.reason == reason,
    {
        End { reason }
    }
}

impl View for End {
    type V = Seq<char>;

    open spec fn view(&self) -> Seq<char> {
        self.reason@
    }
}

impl Serializable for End {
    open spec fn spec_encode(v: Seq<char>) -> Seq<u8> {
        encode_utf8(v)
    }

    open spec fn spec_decode(bytes: Seq<u8>) -> Result<Seq<char>, ParseErrorView> {
        spec_decode_remainder(bytes, "Reason"@)
    }

    fn as_bytes(&self) -> (r: Vec<u8>) {
        text_bytes(&self.reason)
    }

    fn from_bytes(bytes: &[u8]) -> (r: Result<End, MessageParseError>) {
        match decode_remainder(bytes, "Reason") {
            Ok(reason) => Ok(End::new(reason)),
            Err(err) => Err(err),
        }
    }
}

impl Packet for End {
    open spec fn spec_to_message(v: Seq<char>) -> MessageView {
        MessageView::Client(ClientMessageView::End(v))
    }

    fn to_message(self) -> (r: Message) {
        Message::Client(client_message::Message::End(self))
    }
}

} // verus!

//! The packets the server sends.
use vstd::bytes::{spec_u64_from_le_bytes, spec_u64_to_le_bytes, u64_from_le_bytes, u64_to_le_bytes};
use vstd::prelude::*;
use vstd::slice::slice_subrange;
use vstd::utf8::*;

use crate::protocol::error::{MessageParseError, ParseErrorView};
use crate::protocol::message::{Message, MessageView};
use crate::protocol::serializable::{Packet, Serializable};
use crate::protocol::server_message::{self, ServerMessageView};
use crate::protocol::text::{
    decode_remainder, decode_text, spec_decode_remainder, spec_decode_text, text_bytes,
};

verus! {

/// The width in bytes of the little-endian length that precedes a username.
pub const LENGTH_PREFIX_BYTES: usize = 8;

/// The server admits the client. It has no payload.
#[derive(Clone, Debug, PartialEq)]
pub struct Authenticated {}

impl Authenticated {
    pub fn new() -> (r: Authenticated) {
        Authenticated {  }
    }
}

impl Default for Authenticated {
    fn default() -> (r: Authenticated) {
        Authenticated::new()
    }
}

impl View for Authenticated {
    type V = ();

    open spec fn view(&self) -> () {
        ()
    }
}

impl Serializable for Authenticated {
    open spec fn spec_encode(v: ()) -> Seq<u8> {
        Seq::empty()
    }

    /// Any payload decodes: nothing in it is read.
    open spec fn spec_decode(bytes: Seq<u8>) -> Result<(), ParseErrorView> {
        Ok(())
    }

    fn as_bytes(&self) -> (r: Vec<u8>) {
        Vec::new()
    }

    fn from_bytes(bytes: &[u8]) -> (r: Result<Authenticated, MessageParseError>) {
        Ok(Authenticated::new())
    }
}

impl Packet for Authenticated {
    open spec fn spec_to_message(v: ()) -> MessageView {
        MessageView::Server(ServerMessageView::Authenticated)
    }

    fn to_message(self) -> (r: Message) {
        Message::Server(server_message::Message::Authenticated(self))
    }
}

/// A chat line the server relays: who wrote it, and what.
#[derive(Clone, Debug, PartialEq)]
pub struct Chat {
    pub username: String,
    pub message: String,
}

impl Chat {
    pub fn new(username: String, message: String) -> (r: Chat)
        ensures
            r.username == username,
            r.message == message,
    {
        Chat { username, message }
    }
}

impl View for Chat {
    type V = (Seq<char>, Seq<char>);

    open spec fn view(&self) -> (Seq<char>, Seq<char>) {
        (self.username@, self.message@)
    }
}

/// The length prefix as the decoder reads it: the first eight bytes, little-endian.
pub open spec fn spec_length_prefix(bytes: Seq<u8>) -> int {
    spec_u64_from_le_bytes(bytes.subrange(0, LENGTH_PREFIX_BYTES as int)) as int
}

impl Serializable for Chat {
    /// The username's byte length as eight little-endian bytes, the username, then
    /// the message, which takes the rest.
    open spec fn spec_encode(v: (Seq<char>, Seq<char>)) -> Seq<u8> {
        spec_u64_to_le_bytes(encode_utf8(v.0).len() as u64) + encode_utf8(v.0) + encode_utf8(v.1)
    }

    open spec fn spec_decode(bytes: Seq<u8>) -> Result<(Seq<char>, Seq<char>), ParseErrorView> {
        if bytes.len() == 0 {
            Err(ParseErrorView::MessageEmpty)
        } else if bytes.len() < LENGTH_PREFIX_BYTES {
            Err(ParseErrorView::UnexpectedEndOfMessage)
        } else {
            let n = spec_length_prefix(bytes);
            let start = LENGTH_PREFIX_BYTES as int;
            if n > usize::MAX {
                Err(ParseErrorView::ByteParse("Username Length"@))
            } else if bytes.len() <= start + n {
                Err(ParseErrorView::UnexpectedEndOfMessage)
            } else {
                match spec_decode_text(bytes.subrange(start, start + n), "Username"@) {
                    Err(e) => Err(e),
                    Ok(username) => match spec_decode_remainder(
                        bytes.subrange(start + n, bytes.len() as int),
                        "Message"@,
                    ) {
                        Err(e) => Err(e),
                        Ok(message) => Ok((username, message)),
                    },
                }
            }
        }
    }

    fn as_bytes(&self) -> (r: Vec<u8>) {
        let mut username_bytes = text_bytes(&self.username);
        let mut message_bytes = text_bytes(&self.message);
        let mut bytes = u64_to_le_bytes(username_bytes.len() as u64);
        bytes.append(&mut username_bytes);
        bytes.append(&mut message_bytes);
        bytes
    }

    fn from_bytes(bytes: &[u8]) -> (r: Result<Chat, MessageParseError>) {
        if bytes.len() == 0 {
            return Err(MessageParseError::MessageEmpty);
        }
        if bytes.len() < LENGTH_PREFIX_BYTES {
            return Err(MessageParseError::UnexpectedEndOfMessage);
        }
        let length = u64_from_le_bytes(slice_subrange(bytes, 0, LENGTH_PREFIX_BYTES));
        if length > usize::MAX as u64 {
            return Err(MessageParseError::ByteParse("Username Length".to_owned()));
        }
        let length = length as usize;
        if bytes.len() - LENGTH_PREFIX_BYTES <= length {
            return Err(MessageParseError::UnexpectedEndOfMessage);
        }
        let end = LENGTH_PREFIX_BYTES + length;
        let username = match decode_text(slice_subrange(bytes, LENGTH_PREFIX_BYTES, end), "Username") {
            Ok(username) => username,
            Err(err) => return Err(err),
        };
        let message = match decode_remainder(slice_subrange(bytes, end, bytes.len()), "Message") {
            Ok(message) => message,
            Err(err) => return Err(err),
        };
        Ok(Chat::new(username, message))
    }
}

impl Packet for Chat {
    open spec fn spec_to_message(v: (Seq<char>, Seq<char>)) -> MessageView {
        MessageView::Server(ServerMessageView::Chat(v.0, v.1))
    }

    fn to_message(self) -> (r: Message) {
        Message::Server(server_message::Message::Chat(self))
    }
}

/// The server closes the session, giving a reason.
#[derive(Clone, Debug, PartialEq)]
pub struct End {
    pub reason: String,
}

impl End {
    pub fn new(reason: String) -> (r: End)
        ensures
            r.reason == reason,
    {
        End { reason }
    }
}

impl View for End {
    type V = Seq<char>;

    open spec fn view(&self) -> Seq<char> {
        self.reason@
    }
}

impl Serializable for End {
    open spec fn spec_encode(v: Seq<char>) -> Seq<u8> {
        encode_utf8(v)
    }

    open spec fn spec_decode(bytes: Seq<u8>) -> Result<Seq<char>, ParseErrorView> {
        spec_decode_remainder(bytes, "Reason"@)
    }

    fn as_bytes(&self) -> (r: Vec<u8>) {
        text_bytes(&self.reason)
    }

    fn from_bytes(bytes: &[u8]) -> (r: Result<End, MessageParseError>) {
        match decode_remainder(bytes, "Reason") {
            Ok(reason) => Ok(End::new(reason)),
            Err(err) => Err(err),
        }
    }
}

impl Packet for End {
    open spec fn spec_to_message(v: Seq<char>) -> MessageView {
        MessageView::Server(ServerMessageView::End(v))
    }

    fn to_message(self) -> (r: Message) {
        Message::Server(server_message::Message::End(self))
    }
}

} // verus!

//! Errors of decoding, streaming and handshaking.
use vstd::prelude::*;

use crate::protocol::message::Message;

verus! {

/// std's `FromUtf8Error`, the UTF-8 decoder's error: carried, never looked into.
#[verifier::external_type_specification]
#[verifier::external_body]
pub struct ExFromUtf8Error(std::string::FromUtf8Error);

/// std's `io::Error`, a transport failure: carried, never looked into.
#[verifier::external_type_specification]
#[verifier::external_body]
pub struct ExIoError(std::io::Error);

/// Why a byte buffer could not be decoded.
#[derive(Debug, PartialEq)]
pub enum MessageParseError {
    /// The buffer held no byte at all.
    MessageEmpty,
    /// The buffer ended before the declared kind's minimum length.
    UnexpectedEndOfMessage,
    /// A kind tag that names no known kind.
    UnknownKind(u8),
    /// A string field was not valid UTF-8: the field's name and the decoder's error.
    StringParse(String, std::string::FromUtf8Error),
    /// A fixed-width field could not be read: the field's name.
    ByteParse(String),
}

/// The view of a decoding error: what it says, without the decoder's own error value.
pub enum ParseErrorView {
    MessageEmpty,
    UnexpectedEndOfMessage,
    UnknownKind(u8),
    StringParse(Seq<char>),
    ByteParse(Seq<char>),
}

impl View for MessageParseError {
    type V = ParseErrorView;

    open spec fn view(&self) -> ParseErrorView {
        match self {
            MessageParseError::MessageEmpty => ParseErrorView::MessageEmpty,
            MessageParseError::UnexpectedEndOfMessage => ParseErrorView::UnexpectedEndOfMessage,
            MessageParseError::UnknownKind(k) => ParseErrorView::UnknownKind(*k),
            MessageParseError::StringParse(field, _) => ParseErrorView::StringParse(field@),
            MessageParseError::ByteParse(field) => ParseErrorView::ByteParse(field@),
        }
    }
}

/// The view of a decoding result.
pub open spec fn parse_view<T: View>(r: Result<T, MessageParseError>) -> Result<T::V, ParseErrorView> {
    match r {
        Ok(v) => Ok(v@),
        Err(e) => Err(e@),
    }
}

/// Why a message could not be read from, or written to, a connection.
#[derive(Debug)]
pub enum MessageStreamError {
    /// The transport failed.
    IoError(std::io::Error),
    /// The bytes read were no message.
    MessageParseError(MessageParseError),
}

/// Why a handshake did not admit a client.
#[derive(Debug)]
pub enum HandshakeError {
    /// Reading the request or writing the reply failed.
    MessageStreamError(MessageStreamError),
    /// The peer sent a message the handshake does not expect at this point.
    UnexpectedMessage(Message),
    /// The username was refused, for the reason given.
    AuthenticationFailed(String),
}

} // verus!

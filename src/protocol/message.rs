//! A message on the wire: an origin tag, then the origin's own message.
use vstd::prelude::*;
use vstd::slice::slice_subrange;

use crate::protocol::client_message::{self, ClientMessageView};
use crate::protocol::error::{MessageParseError, ParseErrorView};
use crate::protocol::serializable::Serializable;
use crate::protocol::server_message::{self, ServerMessageView};

verus! {

/// A message, tagged with who sends it.
#[derive(Clone, Debug, PartialEq)]
pub enum Message {
    Client(client_message::Message),
    Server(server_message::Message),
}

/// The view of a message.
pub enum MessageView {
    Client(ClientMessageView),
    Server(ServerMessageView),
}

impl View for Message {
    type V = MessageView;

    open spec fn view(&self) -> MessageView {
        match self {
            Message::Client(m) => MessageView::Client(m@),
            Message::Server(m) => MessageView::Server(m@),
        }
    }
}

/// The origin tag: 0 for a client, 1 for the server.
pub open spec fn spec_origin(v: MessageView) -> u8 {
    match v {
        MessageView::Client(_) => 0,
        MessageView::Server(_) => 1,
    }
}

impl Message {
    /// The origin tag.
    pub fn id(&self) -> (r: u8)
        ensures
            r == spec_origin(self@),
    {
        match self {
            Message::Client(_) => 0,
            Message::Server(_) => 1,
        }
    }
}

impl Serializable for Message {
    open spec fn spec_encode(v: MessageView) -> Seq<u8> {
        seq![spec_origin(v)] + match v {
            MessageView::Client(m) => client_message::Message::spec_encode(m),
            MessageView::Server(m) => server_message::Message::spec_encode(m),
        }
    }

    open spec fn spec_decode(bytes: Seq<u8>) -> Result<MessageView, ParseErrorView> {
        if bytes.len() == 0 {
            Err(ParseErrorView::MessageEmpty)
        } else if bytes[0] == 0 {
            match client_message::Message::spec_decode(bytes.drop_first()) {
                Ok(m) => Ok(MessageView::Client(m)),
                Err(e) => Err(e),
            }
        } else if bytes[0] == 1 {
            match server_message::Message::spec_decode(bytes.drop_first()) {
                Ok(m) => Ok(MessageView::Server(m)),
                Err(e) => Err(e),
            }
        } else {
            Err(ParseErrorView::UnknownKind(bytes[0]))
        }
    }

    fn as_bytes(&self) -> (r: Vec<u8>) {
        let mut bytes: Vec<u8> = Vec::new();
        bytes.push(self.id());
        let mut inner = match self {
            Message::Client(m) => m.as_bytes(),
            Message::Server(m) => m.as_bytes(),
        };
        bytes.append(&mut inner);
        bytes
    }

    fn from_bytes(bytes: &[u8]) -> (r: Result<Message, MessageParseError>) {
        if bytes.len() == 0 {
            return Err(MessageParseError::MessageEmpty);
        }
        let origin = bytes[0];
        let inner = slice_subrange(bytes, 1, bytes.len());
        assert(inner@ == bytes@.drop_first());
        if origin == 0 {
            match client_message::Message::from_bytes(inner) {
                Ok(m) => Ok(Message::Client(m)),
                Err(err) => Err(err),
            }
        } else if origin == 1 {
            match server_message::Message::from_bytes(inner) {
                Ok(m) => Ok(Message::Server(m)),
                Err(err) => Err(err),
            }
        } else {
            Err(MessageParseError::UnknownKind(origin))
        }
    }
}

} // verus!

//! The messages the server sends: a kind tag, then the packet.
use vstd::prelude::*;
use vstd::slice::slice_subrange;

use crate::protocol::server_packet::{Authenticated, Chat, End};
use crate::protocol::error::{MessageParseError, ParseErrorView};
use crate::protocol::serializable::Serializable;

verus! {

/// A message from the server.
#[derive(Clone, Debug, PartialEq)]
pub enum Message {
    Authenticated(Authenticated),
    Chat(Chat),
    End(End),
}

/// The view of a server message: its kind and the packet's strings.
pub enum ServerMessageView {
    Authenticated,
    Chat(Seq<char>, Seq<char>),
    End(Seq<char>),
}

impl View for Message {
    type V = ServerMessageView;

    open spec fn view(&self) -> ServerMessageView {
        match self {
            Message::Authenticated(_) => ServerMessageView::Authenticated,
            Message::Chat(p) => ServerMessageView::Chat(p.username@, p.message@),
            Message::End(p) => ServerMessageView::End(p@),
        }
    }
}

/// The kind tag of a server message.
pub open spec fn spec_server_kind(v: ServerMessageView) -> u8 {
    match v {
        ServerMessageView::Authenticated => 0,
        ServerMessageView::Chat(_, _) => 1,
        ServerMessageView::End(_) => 2,
    }
}

/// The encoding of a server message's packet.
pub open spec fn spec_server_payload(v: ServerMessageView) -> Seq<u8> {
    match v {
        ServerMessageView::Authenticated => Authenticated::spec_encode(()),
        ServerMessageView::Chat(u, m) => Chat::spec_encode((u, m)),
        ServerMessageView::End(s) => End::spec_encode(s),
    }
}

impl Message {
    /// The kind tag.
    pub fn id(&self) -> (r: u8)
        ensures
            r == spec_server_kind(self@),
    {
        match self {
            Message::Authenticated(_) => 0,
            Message::Chat(_) => 1,
            Message::End(_) => 2,
        }
    }
}

impl Serializable for Message {
    open spec fn spec_encode(v: ServerMessageView) -> Seq<u8> {
        seq![spec_server_kind(v)] + spec_server_payload(v)
    }

    open spec fn spec_decode(bytes: Seq<u8>) -> Result<ServerMessageView, ParseErrorView> {
        if bytes.len() == 0 {
            Err(ParseErrorView::MessageEmpty)
        } else {
            let payload = bytes.drop_first();
            if bytes[0] == 0 {
                match Authenticated::spec_decode(payload) {
                    Ok(_) => Ok(ServerMessageView::Authenticated),
                    Err(e) => Err(e),
                }
            } else if bytes[0] == 1 {
                match Chat::spec_decode(payload) {
                    Ok(s) => Ok(ServerMessageView::Chat(s.0, s.1)),
                    Err(e) => Err(e),
                }
            } else if bytes[0] == 2 {
                match End::spec_decode(payload) {
                    Ok(s) => Ok(ServerMessageView::End(s)),
                    Err(e) => Err(e),
                }
            } else {
                Err(ParseErrorView::UnknownKind(bytes[0]))
            }
        }
    }

    fn as_bytes(&self) -> (r: Vec<u8>) {
        let mut bytes: Vec<u8> = Vec::new();
        bytes.push(self.id());
        let mut payload = match self {
            Message::Authenticated(p) => p.as_bytes(),
            Message::Chat(p) => p.as_bytes(),
            Message::End(p) => p.as_bytes(),
        };
        bytes.append(&mut payload);
        bytes
    }

    fn from_bytes(bytes: &[u8]) -> (r: Result<Message, MessageParseError>) {
        if bytes.len() == 0 {
            return Err(MessageParseError::MessageEmpty);
        }
        let kind = bytes[0];
        let payload = slice_subrange(bytes, 1, bytes.len());
        assert(payload@ == bytes@.drop_first());
        if kind == 0 {
            match Authenticated::from_bytes(payload) {
                Ok(p) => Ok(Message::Authenticated(p)),
                Err(err) => Err(err),
            }
        } else if kind == 1 {
            match Chat::from_bytes(payload) {
                Ok(p) => Ok(Message::Chat(p)),
                Err(err) => Err(err),
            }
        } else if kind == 2 {
            match End::from_bytes(payload) {
                Ok(p) => Ok(Message::End(p)),
                Err(err) => Err(err),
            }
        } else {
            Err(MessageParseError::UnknownKind(kind))
        }
    }
}

} // verus!

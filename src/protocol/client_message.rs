//! The messages a client sends: a kind tag, then the packet.
use vstd::prelude::*;
use vstd::slice::slice_subrange;

use crate::protocol::client_packet::{Authenticate, Chat, End};
use crate::protocol::error::{MessageParseError, ParseErrorView};
use crate::protocol::serializable::Serializable;

verus! {

/// A message from a client.
#[derive(Clone, Debug, PartialEq)]
pub enum Message {
    Authenticate(Authenticate),
    Chat(Chat),
    End(End),
}

/// The view of a client message: its kind and the packet's strings.
pub enum ClientMessageView {
    Authenticate(Seq<char>),
    Chat(Seq<char>),
    End(Seq<char>),
}

impl View for Message {
    type V = ClientMessageView;

    open spec fn view(&self) -> ClientMessageView {
        match self {
            Message::Authenticate(p) => ClientMessageView::Authenticate(p@),
            Message::Chat(p) => ClientMessageView::Chat(p@),
            Message::End(p) => ClientMessageView::End(p@),
        }
    }
}

/// The kind tag of a client message.
pub open spec fn spec_client_kind(v: ClientMessageView) -> u8 {
    match v {
        ClientMessageView::Authenticate(_) => 0,
        ClientMessageView::Chat(_) => 1,
        ClientMessageView::End(_) => 2,
    }
}

/// The encoding of a client message's packet.
pub open spec fn spec_client_payload(v: ClientMessageView) -> Seq<u8> {
    match v {
        ClientMessageView::Authenticate(s) => Authenticate::spec_encode(s),
        ClientMessageView::Chat(s) => Chat::spec_encode(s),
        ClientMessageView::End(s) => End::spec_encode(s),
    }
}

impl Message {
    /// The kind tag.
    pub fn id(&self) -> (r: u8)
        ensures
            r == spec_client_kind(self@),
    {
        match self {
            Message::Authenticate(_) => 0,
            Message::Chat(_) => 1,
            Message::End(_) => 2,
        }
    }
}

impl Serializable for Message {
    open spec fn spec_encode(v: ClientMessageView) -> Seq<u8> {
        seq![spec_client_kind(v)] + spec_client_payload(v)
    }

    open spec fn spec_decode(bytes: Seq<u8>) -> Result<ClientMessageView, ParseErrorView> {
        if bytes.len() == 0 {
            Err(ParseErrorView::MessageEmpty)
        } else {
            let payload = bytes.drop_first();
            if bytes[0] == 0 {
                match Authenticate::spec_decode(payload) {
                    Ok(s) => Ok(ClientMessageView::Authenticate(s)),
                    Err(e) => Err(e),
                }
            } else if bytes[0] == 1 {
                match Chat::spec_decode(payload) {
                    Ok(s) => Ok(ClientMessageView::Chat(s)),
                    Err(e) => Err(e),
                }
            } else if bytes[0] == 2 {
                match End::spec_decode(payload) {
                    Ok(s) => Ok(ClientMessageView::End(s)),
                    Err(e) => Err(e),
                }
            } else {
                Err(ParseErrorView::UnknownKind(bytes[0]))
            }
        }
    }

    fn as_bytes(&self) -> (r: Vec<u8>) {
        let mut bytes: Vec<u8> = Vec::new();
        bytes.push(self.id());
        let mut payload = match self {
            Message::Authenticate(p) => p.as_bytes(),
            Message::Chat(p) => p.as_bytes(),
            Message::End(p) => p.as_bytes(),
        };
        bytes.append(&mut payload);
        bytes
    }

    fn from_bytes(bytes: &[u8]) -> (r: Result<Message, MessageParseError>) {
        if bytes.len() == 0 {
            return Err(MessageParseError::MessageEmpty);
        }
        let kind = bytes[0];
        let payload = slice_subrange(bytes, 1, bytes.len());
        assert(payload@ == bytes@.drop_first());
        if kind == 0 {
            match Authenticate::from_bytes(payload) {
                Ok(p) => Ok(Message::Authenticate(p)),
                Err(err) => Err(err),
            }
        } else if kind == 1 {
            match Chat::from_bytes(payload) {
                Ok(p) => Ok(Message::Chat(p)),
                Err(err) => Err(err),
            }
        } else if kind == 2 {
            match End::from_bytes(payload) {
                Ok(p) => Ok(Message::End(p)),
                Err(err) => Err(err),
            }
        } else {
            Err(MessageParseError::UnknownKind(kind))
        }
    }
}

} // verus!

//! What holds of the encodings as a whole: decoding inverts encoding, an empty
//! buffer never decodes, and an unknown tag is reported as such.
use vstd::bytes::lemma_auto_spec_u64_to_from_le_bytes;
use vstd::prelude::*;
use vstd::utf8::*;

use crate::protocol::client_message::{self, ClientMessageView};
use crate::protocol::client_packet;
use crate::protocol::error::ParseErrorView;
use crate::protocol::message::{Message, MessageView};
use crate::protocol::serializable::Serializable;
use crate::protocol::server_message::{self, ServerMessageView};
use crate::protocol::server_packet;
use crate::protocol::text::{spec_decode_remainder, spec_decode_text};

verus! {

broadcast use vstd::utf8::group_utf8_lib;

/// A client message whose fields the wire can carry: a string that takes the rest
/// of the payload is never empty.
pub open spec fn client_message_well_formed(v: ClientMessageView) -> bool {
    match v {
        ClientMessageView::Authenticate(s) => s.len() > 0,
        ClientMessageView::Chat(s) => s.len() > 0,
        ClientMessageView::End(s) => s.len() > 0,
    }
}

/// A server message whose fields the wire can carry: the username's byte length fits
/// the length prefix and the platform's address width, and a string that takes the
/// rest of the payload is never empty.
pub open spec fn server_message_well_formed(v: ServerMessageView) -> bool {
    match v {
        ServerMessageView::Authenticated => true,
        ServerMessageView::Chat(username, message) => encode_utf8(username).len() <= usize::MAX
            && message.len() > 0,
        ServerMessageView::End(s) => s.len() > 0,
    }
}

/// A message whose fields the wire can carry.
pub open spec fn message_well_formed(v: MessageView) -> bool {
    match v {
        MessageView::Client(m) => client_message_well_formed(m),
        MessageView::Server(m) => server_message_well_formed(m),
    }
}

proof fn lemma_encode_nonempty(s: Seq<char>)
    requires
        s.len() > 0,
    ensures
        encode_utf8(s).len() > 0,
{
    assert(encode_utf8(s) == encode_scalar(s[0] as u32) + encode_utf8(s.drop_first()));
}

proof fn lemma_remainder_round_trip(s: Seq<char>, field: Seq<char>)
    requires
        s.len() > 0,
    ensures
        spec_decode_remainder(encode_utf8(s), field) == Ok::<Seq<char>, ParseErrorView>(s),
{
    lemma_encode_nonempty(s);
}

proof fn lemma_tagged(tag: u8, payload: Seq<u8>)
    ensures
        (seq![tag] + payload).len() > 0,
        (seq![tag] + payload)[0] == tag,
        (seq![tag] + payload).drop_first() == payload,
{
    assert((seq![tag] + payload).drop_first() =~= payload);
}

/// Decoding a client packet's encoding gives the packet back, for every string
/// that is not empty.
pub proof fn lemma_client_packet_round_trip(s: Seq<char>)
    requires
        s.len() > 0,
    ensures
        client_packet::Authenticate::spec_decode(client_packet::Authenticate::spec_encode(s))
            == Ok::<Seq<char>, ParseErrorView>(s),
        client_packet::Chat::spec_decode(client_packet::Chat::spec_encode(s))
            == Ok::<Seq<char>, ParseErrorView>(s),
        client_packet::End::spec_decode(client_packet::End::spec_encode(s))
            == Ok::<Seq<char>, ParseErrorView>(s),
{
    lemma_remainder_round_trip(s, "Username"@);
    lemma_remainder_round_trip(s, "Message"@);
    lemma_remainder_round_trip(s, "Reason"@);
}

/// Decoding a server chat packet's encoding gives the packet back, whenever the
/// username's byte length fits the platform's address width and the message is not
/// empty.
pub proof fn lemma_server_chat_round_trip(username: Seq<char>, message: Seq<char>)
    requires
        encode_utf8(username).len() <= usize::MAX,
        message.len() > 0,
    ensures
        server_packet::Chat::spec_decode(server_packet::Chat::spec_encode((username, message)))
            == Ok::<(Seq<char>, Seq<char>), ParseErrorView>((username, message)),
{
    let u = encode_utf8(username);
    let m = encode_utf8(message);
    let n = u.len() as u64;
    let prefix = vstd::bytes::spec_u64_to_le_bytes(n);
    let bytes = server_packet::Chat::spec_encode((username, message));
    lemma_auto_spec_u64_to_from_le_bytes();
    lemma_encode_nonempty(message);
    assert(bytes == prefix + u + m);
    assert(prefix.len() == 8);
    assert(bytes.subrange(0, 8) =~= prefix);
    assert(server_packet::spec_length_prefix(bytes) == u.len());
    assert(bytes.subrange(8, 8 + u.len() as int) =~= u);
    assert(bytes.subrange(8 + u.len() as int, bytes.len() as int) =~= m);
    lemma_remainder_round_trip(message, "Message"@);
}

/// Decoding a server packet's encoding gives the packet back: the packet without
/// payload always, and a reason whenever it is not empty.
pub proof fn lemma_server_packet_round_trip(s: Seq<char>)
    requires
        s.len() > 0,
    ensures
        server_packet::Authenticated::spec_decode(server_packet::Authenticated::spec_encode(()))
            == Ok::<(), ParseErrorView>(()),
        server_packet::End::spec_decode(server_packet::End::spec_encode(s))
            == Ok::<Seq<char>, ParseErrorView>(s),
{
    lemma_remainder_round_trip(s, "Reason"@);
}

/// Decoding a client message's encoding gives the message back.
pub proof fn lemma_client_message_round_trip(v: ClientMessageView)
    requires
        client_message_well_formed(v),
    ensures
        client_message::Message::spec_decode(client_message::Message::spec_encode(v))
            == Ok::<ClientMessageView, ParseErrorView>(v),
{
    let payload = client_message::spec_client_payload(v);
    lemma_tagged(client_message::spec_client_kind(v), payload);
    match v {
        ClientMessageView::Authenticate(s) => lemma_client_packet_round_trip(s),
        ClientMessageView::Chat(s) => lemma_client_packet_round_trip(s),
        ClientMessageView::End(s) => lemma_client_packet_round_trip(s),
    }
}

/// Decoding a server message's encoding gives the message back.
pub proof fn lemma_server_message_round_trip(v: ServerMessageView)
    requires
        server_message_well_formed(v),
    ensures
        server_message::Message::spec_decode(server_message::Message::spec_encode(v))
            == Ok::<ServerMessageView, ParseErrorView>(v),
{
    let payload = server_message::spec_server_payload(v);
    lemma_tagged(server_message::spec_server_kind(v), payload);
    match v {
        ServerMessageView::Authenticated => {},
        ServerMessageView::Chat(u, m) => lemma_server_chat_round_trip(u, m),
        ServerMessageView::End(s) => lemma_server_packet_round_trip(s),
    }
}

/// Decoding a message's encoding gives the message back, for every packet variant
/// and every field assignment that the wire can carry.
pub proof fn lemma_message_round_trip(v: MessageView)
    requires
        message_well_formed(v),
    ensures
        Message::spec_decode(Message::spec_encode(v)) == Ok::<MessageView, ParseErrorView>(v),
{
    match v {
        MessageView::Client(m) => {
            lemma_tagged(0, client_message::Message::spec_encode(m));
            lemma_client_message_round_trip(m);
        },
        MessageView::Server(m) => {
            lemma_tagged(1, server_message::Message::spec_encode(m));
            lemma_server_message_round_trip(m);
        },
    }
}

/// An empty buffer never decodes: every message decoder, and every decoder of a packet
/// that has a field, reports it as empty. (The packet without payload is the one
/// whose encoding is empty: it decodes from an empty buffer.)
pub proof fn lemma_decode_empty()
    ensures
        Message::spec_decode(Seq::empty()) == Err::<MessageView, ParseErrorView>(
            ParseErrorView::MessageEmpty,
        ),
        client_message::Message::spec_decode(Seq::empty()) == Err::<
            ClientMessageView,
            ParseErrorView,
        >(ParseErrorView::MessageEmpty),
        server_message::Message::spec_decode(Seq::empty()) == Err::<
            ServerMessageView,
            ParseErrorView,
        >(ParseErrorView::MessageEmpty),
        client_packet::Authenticate::spec_decode(Seq::empty()) == Err::<Seq<char>, ParseErrorView>(
            ParseErrorView::MessageEmpty,
        ),
        client_packet::Chat::spec_decode(Seq::empty()) == Err::<Seq<char>, ParseErrorView>(
            ParseErrorView::MessageEmpty,
        ),
        client_packet::End::spec_decode(Seq::empty()) == Err::<Seq<char>, ParseErrorView>(
            ParseErrorView::MessageEmpty,
        ),
        server_packet::Chat::spec_decode(Seq::empty()) == Err::<
            (Seq<char>, Seq<char>),
            ParseErrorView,
        >(ParseErrorView::MessageEmpty),
        server_packet::End::spec_decode(Seq::empty()) == Err::<Seq<char>, ParseErrorView>(
            ParseErrorView::MessageEmpty,
        ),
{
}

/// A buffer that starts with an unknown tag decodes to an error that carries the
/// tag: an origin other than 0 and 1, or a kind other than 0, 1 and 2 after either
/// origin.
pub proof fn lemma_unknown_tag(tag: u8, rest: Seq<u8>)
    ensures
        tag > 1 ==> Message::spec_decode(seq![tag] + rest) == Err::<MessageView, ParseErrorView>(
            ParseErrorView::UnknownKind(tag),
        ),
        tag > 2 ==> client_message::Message::spec_decode(seq![tag] + rest) == Err::<
            ClientMessageView,
            ParseErrorView,
        >(ParseErrorView::UnknownKind(tag)),
        tag > 2 ==> server_message::Message::spec_decode(seq![tag] + rest) == Err::<
            ServerMessageView,
            ParseErrorView,
        >(ParseErrorView::UnknownKind(tag)),
        tag > 2 ==> Message::spec_decode(seq![0u8] + (seq![tag] + rest)) == Err::<
            MessageView,
            ParseErrorView,
        >(ParseErrorView::UnknownKind(tag)),
        tag > 2 ==> Message::spec_decode(seq![1u8] + (seq![tag] + rest)) == Err::<
            MessageView,
            ParseErrorView,
        >(ParseErrorView::UnknownKind(tag)),
{
    lemma_tagged(tag, rest);
    lemma_tagged(0, seq![tag] + rest);
    lemma_tagged(1, seq![tag] + rest);
}

} // verus!

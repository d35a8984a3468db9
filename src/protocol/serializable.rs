//! The two traits every packet and message implements.
use vstd::prelude::*;

use crate::protocol::error::{parse_view, MessageParseError, ParseErrorView};
use crate::protocol::message::{Message, MessageView};

verus! {

/// A value with an encoding on the wire and a decoder for it, both stated over the
/// value's view.
pub trait Serializable: Sized + View {
    /// The bytes that encode a value with the given view.
    spec fn spec_encode(v: Self::V) -> Seq<u8>;

    /// What decoding the given bytes yields: a value's view, or the error's.
    spec fn spec_decode(bytes: Seq<u8>) -> Result<Self::V, ParseErrorView>;

    fn as_bytes(&self) -> (r: Vec<u8>)
        ensures
            r@ == Self::spec_encode(self@),
    ;

    fn from_bytes(bytes: &[u8]) -> (r: Result<Self, MessageParseError>)
        ensures
            parse_view(r) == Self::spec_decode(bytes@),
    ;
}

/// A packet: the payload of one message, which it can be wrapped into.
pub trait Packet: Serializable {
    /// The view of the message that carries a packet with the given view.
    spec fn spec_to_message(v: Self::V) -> MessageView;

    fn to_message(self) -> (r: Message)
        ensures
            r@ == Self::spec_to_message(self@),
    ;
}

} // verus!

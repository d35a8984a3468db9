//! Strings on the wire: raw UTF-8 bytes, without terminator.
use vstd::prelude::*;
use vstd::utf8::*;
use vstd::slice::slice_to_vec;

use crate::protocol::error::{MessageParseError, ParseErrorView};

verus! {

broadcast use vstd::utf8::group_utf8_lib;

/// What decoding a string field yields: its characters, or the field's name in the error.
pub open spec fn spec_decode_text(bytes: Seq<u8>, field: Seq<char>) -> Result<Seq<char>, ParseErrorView> {
    if valid_utf8(bytes) {
        Ok(decode_utf8(bytes))
    } else {
        Err(ParseErrorView::StringParse(field))
    }
}

/// What decoding a string field that takes all remaining bytes yields: such a field is
/// never empty on the wire, so an empty buffer is reported as empty.
pub open spec fn spec_decode_remainder(bytes: Seq<u8>, field: Seq<char>) -> Result<Seq<char>, ParseErrorView> {
    if bytes.len() == 0 {
        Err(ParseErrorView::MessageEmpty)
    } else {
        spec_decode_text(bytes, field)
    }
}

/// Relies on `String::from_utf8`: it accepts exactly the vectors that are valid UTF-8,
/// and the string it returns holds those very bytes.
#[verifier::external_body]
fn string_from_utf8(bytes: Vec<u8>) -> (r: Result<String, std::string::FromUtf8Error>)
    ensures
        r is Ok <==> valid_utf8(bytes@),
        r matches Ok(s) ==> encode_utf8(s@) == bytes@,
{
    String::from_utf8(bytes)
}

/// The UTF-8 bytes of a string.
pub fn text_bytes(s: &String) -> (r: Vec<u8>)
    ensures
        r@ == encode_utf8(s@),
{
    slice_to_vec(s.as_str().as_bytes())
}

/// Decodes a string field; `field` names it in the error.
pub fn decode_text(bytes: &[u8], field: &str) -> (r: Result<String, MessageParseError>)
    ensures
        match r {
            Ok(s) => spec_decode_text(bytes@, field@) == Ok::<Seq<char>, ParseErrorView>(s@),
            Err(e) => spec_decode_text(bytes@, field@) == Err::<Seq<char>, ParseErrorView>(e@),
        },
{
    match string_from_utf8(slice_to_vec(bytes)) {
        Ok(s) => {
            proof {
                encode_utf8_decode_utf8(s@);
            }
            Ok(s)
        },
        Err(err) => Err(MessageParseError::StringParse(field.to_owned(), err)),
    }
}

/// Decodes a string field that takes all remaining bytes.
pub fn decode_remainder(bytes: &[u8], field: &str) -> (r: Result<String, MessageParseError>)
    ensures
        match r {
            Ok(s) => spec_decode_remainder(bytes@, field@) == Ok::<Seq<char>, ParseErrorView>(s@),
            Err(e) => spec_decode_remainder(bytes@, field@) == Err::<Seq<char>, ParseErrorView>(e@),
        },
{
    if bytes.len() == 0 {
        return Err(MessageParseError::MessageEmpty);
    }
    decode_text(bytes, field)
}

} // verus!

//! The destination of an artifact, which the host names in bytes.

use vstd::prelude::*;
use vstd::utf8::{decode_utf8, encode_utf8, valid_utf8};

verus! {

/// Converts bytes to text with `String::from_utf8` of the standard library.
/// Its documentation promises a string exactly for valid UTF-8, and that the
/// string then consists of the bytes given; this contract says so over
/// vstd's definition of UTF-8.
#[verifier::external_body]
fn string_from_utf8(bytes: Vec<u8>) -> (text: Option<String>)
    ensures
        text is Some <==> valid_utf8(bytes@),
        text matches Some(s) ==> encode_utf8(s@) == bytes@,
{
    match String::from_utf8(bytes) {
        Ok(s) => Some(s),
        Err(_) => None,
    }
}

/// The text that the bytes are in UTF-8; `None` for bytes that are no UTF-8.
pub fn text_from_utf8(bytes: Vec<u8>) -> (text: Option<String>)
    ensures
        text is Some <==> valid_utf8(bytes@),
        text matches Some(t) ==> t@ == decode_utf8(bytes@) && encode_utf8(t@) == bytes@,
{
    let text = string_from_utf8(bytes);
    proof {
        if text is Some {
            vstd::utf8::encode_utf8_decode_utf8(text->Some_0@);
        }
    }
    text
}

/// The path that the bytes name: they must be UTF-8, and the path is their
/// text. `None` for bytes that are no UTF-8.
pub fn bytes_to_path(bytes: &[u8]) -> (path: Option<String>)
    ensures
        path is Some <==> valid_utf8(bytes@),
        path matches Some(p) ==> p@ == decode_utf8(bytes@) && encode_utf8(p@) == bytes@,
{
    text_from_utf8(vstd::slice::slice_to_vec(bytes))
}

} // verus!

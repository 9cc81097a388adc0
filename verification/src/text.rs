//! Text fields of the native layer.
use vstd::prelude::*;
use vstd::utf8::*;

verus! {

/// What stands in for a text field whose bytes are not UTF-8: the single
/// character U+FFFD.
pub open spec fn replacement() -> Seq<char> {
    seq!['\u{fffd}']
}

/// The text that a native byte buffer holds: its UTF-8 decoding, or
/// [`replacement`] where the bytes are not valid UTF-8.
pub open spec fn text_of(bytes: Seq<u8>) -> Seq<char> {
    if valid_utf8(bytes) {
        decode_utf8(bytes)
    } else {
        replacement()
    }
}

/// `String::from_utf8`, with its error dropped. Trusted: the result is
/// `Some` exactly when the bytes are valid UTF-8, and then it is the string
/// that those bytes encode.
#[verifier::external_body]
fn string_from_utf8(bytes: Vec<u8>) -> (r: Option<String>)
    ensures
        r.is_some() == valid_utf8(bytes@),
        r matches Some(s) ==> s@ == decode_utf8(bytes@),
{
    match String::from_utf8(bytes) {
        Ok(s) => Some(s),
        Err(_) => None,
    }
}

/// Decodes a text field. Bytes that are not UTF-8 give the replacement
/// marker instead of a failure, so that decoding an event never stops on a
/// malformed name.
pub fn decode_text(bytes: Vec<u8>) -> (r: String)
    ensures
        r@ == text_of(bytes@),
{
    match string_from_utf8(bytes) {
        Some(s) => s,
        None => {
            let marker = "\u{fffd}".to_string();
            proof {
                reveal_strlit("\u{fffd}");
                assert(marker@ =~= replacement());
            }
            marker
        },
    }
}

} // verus!

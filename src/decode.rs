use vstd::prelude::*;
use vstd::utf8::{decode_utf8, encode_utf8, encode_utf8_decode_utf8, encode_utf8_valid_utf8, valid_utf8};

use crate::protocol::Violation;

verus! {

/// Why a buffer that should hold a null-terminated UTF-8 string does not,
/// or `None` where it does.
pub open spec fn cstring_violation(buf: Seq<u8>) -> Option<Violation> {
    if buf.len() == 0 {
        Some(Violation::EmptyBuffer)
    } else if buf.last() != 0 {
        Some(Violation::MissingTerminator(buf.last()))
    } else if !valid_utf8(buf.drop_last()) {
        Some(Violation::InvalidUtf8)
    } else {
        None
    }
}

/// The text of a well-formed null-terminated buffer: its bytes before the
/// terminator, read as UTF-8.
pub open spec fn cstring_text(buf: Seq<u8>) -> Seq<char> {
    decode_utf8(buf.drop_last())
}

/// Relies on `String::from_utf8`: it accepts exactly the well-formed UTF-8
/// byte strings, and the string it returns holds the characters they encode.
#[verifier::external_body]
fn utf8_to_string(bytes: Vec<u8>) -> (r: Option<String>)
    ensures
        r is Some <==> valid_utf8(bytes@),
        r matches Some(s) ==> s@ == decode_utf8(bytes@),
{
    String::from_utf8(bytes).ok()
}

/// Decodes a buffer that the runtime filled with a null-terminated string:
/// strips the terminator and checks the rest as UTF-8. Any other shape is a
/// violation of the native contract.
pub fn decode_cstring_buf(buf: Vec<u8>) -> (r: Result<String, Violation>)
    ensures
        match cstring_violation(buf@) {
            Some(v) => r == Err::<String, Violation>(v),
            None => r matches Ok(s) && s@ == cstring_text(buf@),
        },
{
    let mut buf = buf;
    let ghost whole = buf@;
    let last = buf.pop();
    match last {
        Some(0u8) => {
            assert(buf@ == whole.drop_last());
            match utf8_to_string(buf) {
                Some(s) => Ok(s),
                None => Err(Violation::InvalidUtf8),
            }
        },
        Some(other) => Err(Violation::MissingTerminator(other)),
        None => Err(Violation::EmptyBuffer),
    }
}

/// Turns a buffer that holds a null-terminated UTF-8 string into that
/// string, without the terminator.
pub fn string_from_cstring_buf(buf: Vec<u8>) -> (r: String)
    requires
        cstring_violation(buf@) is None,
    ensures
        r@ == cstring_text(buf@),
{
    match decode_cstring_buf(buf) {
        Ok(s) => s,
        Err(_) => String::new(),
    }
}

/// Any text that the runtime writes with its terminator decodes back to the
/// same text, with no violation.
pub proof fn lemma_cstring_round_trip(text: Seq<char>)
    ensures
        cstring_violation(encode_utf8(text).push(0)) is None,
        cstring_text(encode_utf8(text).push(0)) == text,
{
    let buf = encode_utf8(text).push(0);
    assert(buf.drop_last() =~= encode_utf8(text));
    encode_utf8_valid_utf8(text);
    encode_utf8_decode_utf8(text);
}

} // verus!

//! Conversion of raw bytes into `String` values, used for decoder
//! diagnostics and for the text fields of a ROM header.

use vstd::prelude::*;
use vstd::utf8::*;

verus! {

/// Relies on `String::from_utf8`: it returns a string exactly when the bytes
/// are valid UTF-8, and the string's characters are then the decoded Unicode
/// scalar values of those bytes.
#[verifier::external_body]
pub(crate) fn utf8_to_string(bytes: Vec<u8>) -> (result: Option<String>)
    ensures
        match result {
            Some(s) => valid_utf8(bytes@) && s@ == decode_utf8(bytes@),
            None => !valid_utf8(bytes@),
        },
{
    match String::from_utf8(bytes) {
        Ok(s) => Some(s),
        Err(_) => None,
    }
}

/// A byte sequence that matches an ASCII character sequence code for code is
/// valid UTF-8 and decodes to exactly those characters.
pub(crate) proof fn lemma_ascii_bytes_decode(chars: Seq<char>, bytes: Seq<u8>)
    requires
        is_ascii_chars(chars),
        bytes.len() == chars.len(),
        forall|i: int| 0 <= i < bytes.len() ==> bytes[i] == chars[i] as u8,
    ensures
        valid_utf8(bytes),
        decode_utf8(bytes) == chars,
{
    is_ascii_chars_encode_utf8(chars);
    assert(encode_utf8(chars) =~= bytes);
    encode_utf8_valid_utf8(chars);
    encode_utf8_decode_utf8(chars);
}

} // verus!

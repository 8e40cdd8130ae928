//! Text on its way across the boundary: bytes from the host or the engine
//! become a `String`, and a string becomes the bytes that the host reads.

use vstd::prelude::*;
use vstd::string::*;
use vstd::utf8::{decode_utf8, encode_utf8, valid_utf8};
use crate::error::{BridgeError, ErrorKind, ErrorModel};

verus! {

/// The words in which `std` describes the first UTF-8 error in `bytes`.
pub uninterp spec fn utf8_error_text(bytes: Seq<u8>) -> Seq<char>;

/// `std::str::from_utf8`, with both arms turned into owned strings.
///
/// Believed, not proved: on valid UTF-8 the call succeeds and the string
/// holds the characters that the bytes encode; on anything else it fails, and
/// the error's `Display` text depends on the bytes alone.
#[verifier::external_body]
fn from_utf8(bytes: &[u8]) -> (r: Result<String, String>)
    ensures
        match r {
            Ok(text) => valid_utf8(bytes@) && text@ == decode_utf8(bytes@),
            Err(text) => !valid_utf8(bytes@) && text@ == utf8_error_text(bytes@),
        },
{
    match std::str::from_utf8(bytes) {
        Ok(text) => Ok(text.to_owned()),
        Err(error) => Err(error.to_string()),
    }
}

/// What `get_string` returns for `bytes`.
pub open spec fn read_as_text(result: Result<String, BridgeError>, bytes: Seq<u8>) -> bool {
    if valid_utf8(bytes) {
        result matches Ok(text) && text@ == decode_utf8(bytes)
    } else {
        result matches Err(error) && error@ == (ErrorModel {
            kind: ErrorKind::Encoding,
            text: Some(utf8_error_text(bytes)),
        })
    }
}

/// Reads bytes as text.
///
/// Valid UTF-8 gives the characters it encodes. Anything else is an
/// `Encoding` error that carries the description of what is wrong.
pub fn get_string(bytes: &[u8]) -> (r: Result<String, BridgeError>)
    ensures
        read_as_text(r, bytes@),
{
    match from_utf8(bytes) {
        Ok(text) => Ok(text),
        Err(text) => Err(BridgeError { kind: ErrorKind::Encoding, text: Some(text) }),
    }
}

/// The bytes of `s` followed by a terminating zero, for a host that reads
/// C strings. There is no such form for a string that holds a zero byte
/// itself.
pub fn create_string(s: &str) -> (r: Option<Vec<u8>>)
    ensures
        match r {
            Some(bytes) => !encode_utf8(s@).contains(0u8) && bytes@ == encode_utf8(s@).push(0u8),
            None => encode_utf8(s@).contains(0u8),
        },
{
    let source = s.as_bytes();
    let mut bytes: Vec<u8> = Vec::new();
    let mut i: usize = 0;
    while i < source.len()
        invariant
            i <= source@.len(),
            source@ == encode_utf8(s@),
            bytes@ == source@.subrange(0, i as int),
            forall|j: int| 0 <= j < i ==> source@[j] != 0u8,
        decreases source@.len() - i,
    {
        let byte = source[i];
        if byte == 0u8 {
            return None;
        }
        bytes.push(byte);
        i = i + 1;
        assert(bytes@ == source@.subrange(0, i as int));
    }
    assert(source@.subrange(0, i as int) == source@);
    bytes.push(0u8);
    Some(bytes)
}

} // verus!

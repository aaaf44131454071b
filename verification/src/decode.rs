//! Best-effort decoder for event attribute strings: attributes may carry
//! base64-encoded binary or plain text, with no way to tell which, so
//! decoding is attempted and falls back to the raw bytes of the input.

use vstd::prelude::*;
use vstd::string::StrSliceExecFns;

verus! {

/// What `base64::decode` returns for a string: the decoded bytes, or
/// `None` where the string is not valid standard base64.
pub uninterp spec fn b64_decode_of(s: Seq<char>) -> Option<Seq<u8>>;

/// Relies on `base64::decode`: standard base64 decoding, which depends
/// on the input characters alone and fails exactly on strings that are
/// not valid base64.
#[verifier::external_body]
fn b64_decode(s: &str) -> (r: Option<Vec<u8>>)
    ensures
        r is Some <==> b64_decode_of(s@) is Some,
        r matches Some(b) ==> b64_decode_of(s@) == Some(b@),
{
    base64::decode(s).ok()
}

/// The bytes `decode` yields for a string: the base64 decoding when the
/// string is valid base64, its UTF-8 bytes otherwise.
pub open spec fn decoded_bytes(s: Seq<char>) -> Seq<u8> {
    match b64_decode_of(s) {
        Some(b) => b,
        None => vstd::utf8::encode_utf8(s),
    }
}

/// Decode an attribute string. Total: every input yields a byte
/// sequence. Valid base64 input yields exactly the bytes it encodes;
/// anything else passes through as its own UTF-8 bytes.
pub fn decode(encoded: &str) -> (r: Vec<u8>)
    ensures
        r@ == decoded_bytes(encoded@),
        b64_decode_of(encoded@) matches Some(b) ==> r@ == b,
{
    match b64_decode(encoded) {
        Some(decoded) => decoded,
        None => encoded.as_bytes_vec(),
    }
}

/// What `String::from_utf8_lossy` returns for a byte sequence: the text
/// it decodes to, invalid sequences replaced; it depends on the bytes
/// alone.
pub uninterp spec fn lossy_utf8_of(b: Seq<u8>) -> Seq<char>;

/// Relies on `String::from_utf8_lossy`: lossy UTF-8 conversion, a
/// function of the bytes alone that never fails.
#[verifier::external_body]
pub(crate) fn lossy_string(b: &[u8]) -> (r: String)
    ensures
        r@ == lossy_utf8_of(b@),
{
    String::from_utf8_lossy(b).into_owned()
}

} // verus!

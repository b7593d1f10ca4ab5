//! Base64 and UTF-8, as the `base64` crate and the standard library implement them.

use vstd::prelude::*;
use vstd::utf8::{decode_utf8, valid_utf8};

verus! {

/// What the standard base64 engine, with padding, encodes a run of bytes to.
pub uninterp spec fn base64_encoding(data: Seq<u8>) -> Seq<char>;

/// What the standard base64 engine, with padding, makes of a text: the bytes it
/// decodes to, or the rendered message of the error it reports.
pub uninterp spec fn base64_decoding(text: Seq<char>) -> Result<Seq<u8>, Seq<char>>;

/// Whether a run of `len` bytes has an encoding whose length fits the machine word.
pub open spec fn encodable(len: nat) -> bool {
    len / 3 < usize::MAX / 4
}

/// Calls `Engine::encode` on `base64::engine::general_purpose::STANDARD`.
///
/// Trusted: the outcome depends on the bytes alone. The call panics when the
/// encoded length overflows the machine word, so such inputs are left out.
#[verifier::external_body]
pub(crate) fn base64_encode(data: &[u8]) -> (r: String)
    requires
        encodable(data@.len()),
    ensures
        r@ == base64_encoding(data@),
{
    base64::Engine::encode(&base64::engine::general_purpose::STANDARD, data)
}

/// Calls `Engine::decode` on `base64::engine::general_purpose::STANDARD`, and renders
/// a `DecodeError` through its `Display` impl.
///
/// Trusted: the outcome depends on the text alone. Decoding inverts encoding: a
/// text that is the standard encoding of some bytes decodes to those bytes, and a
/// text that is rejected is the encoding of none.
#[verifier::external_body]
pub(crate) fn base64_decode(text: &str) -> (r: Result<Vec<u8>, String>)
    ensures
        match r {
            Ok(bytes) => {
                &&& base64_decoding(text@) == Ok::<Seq<u8>, Seq<char>>(bytes@)
                &&& forall|data: Seq<u8>| text@ == #[trigger] base64_encoding(data) ==> bytes@ == data
            },
            Err(detail) => {
                &&& base64_decoding(text@) == Err::<Seq<u8>, Seq<char>>(detail@)
                &&& forall|data: Seq<u8>| text@ != #[trigger] base64_encoding(data)
            },
        },
{
    match base64::Engine::decode(&base64::engine::general_purpose::STANDARD, text) {
        Ok(bytes) => Ok(bytes),
        Err(error) => Err(error.to_string()),
    }
}

/// Calls `String::from_utf8`.
///
/// Trusted: succeeds exactly on valid UTF-8, with the text that the bytes encode.
#[verifier::external_body]
pub(crate) fn text_from_utf8(bytes: Vec<u8>) -> (r: Option<String>)
    ensures
        r is Some <==> valid_utf8(bytes@),
        r matches Some(text) ==> text@ == decode_utf8(bytes@),
{
    match String::from_utf8(bytes) {
        Ok(text) => Some(text),
        Err(_) => None,
    }
}

} // verus!

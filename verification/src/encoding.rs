//! Base64 and UTF-8, between texts and bytes.

use vstd::prelude::*;
use vstd::string::*;
use vstd::utf8::*;

verus! {

/// The bytes that an optional vector holds.
pub open spec fn opt_bytes(value: Option<Vec<u8>>) -> Option<Seq<u8>> {
    match value {
        Some(bytes) => Some(bytes@),
        None => None,
    }
}

/// What the standard Base64 alphabet with padding decodes a text to.
pub uninterp spec fn standard_bytes(source: Seq<char>) -> Option<Seq<u8>>;

/// `base64::engine::general_purpose::STANDARD.decode`, with every decode error as `None`.
#[verifier::external_body]
pub(crate) fn decode_standard(source: &str) -> (r: Option<Vec<u8>>)
    ensures
        opt_bytes(r) == standard_bytes(source@),
{
    base64::Engine::decode(&base64::engine::general_purpose::STANDARD, source).ok()
}

/// What the URL-safe Base64 alphabet without padding decodes a text to.
pub uninterp spec fn url_safe_bytes(source: Seq<char>) -> Option<Seq<u8>>;

/// `base64::engine::general_purpose::URL_SAFE_NO_PAD.decode`, with every decode error as `None`.
#[verifier::external_body]
pub(crate) fn decode_url_safe(source: &str) -> (r: Option<Vec<u8>>)
    ensures
        opt_bytes(r) == url_safe_bytes(source@),
{
    base64::Engine::decode(&base64::engine::general_purpose::URL_SAFE_NO_PAD, source).ok()
}

/// What the URL-safe Base64 alphabet without padding encodes bytes to.
pub uninterp spec fn url_safe_text(bytes: Seq<u8>) -> Seq<char>;

/// `base64::engine::general_purpose::URL_SAFE_NO_PAD.encode`, which the decoder of the same
/// engine undoes. It panics where the length of the text would not fit, so long inputs are left
/// out.
#[verifier::external_body]
pub(crate) fn encode_url_safe(bytes: &Vec<u8>) -> (r: String)
    requires
        bytes@.len() <= usize::MAX / 4,
    ensures
        r@ == url_safe_text(bytes@),
        url_safe_bytes(r@) == Some(bytes@),
{
    base64::Engine::encode(&base64::engine::general_purpose::URL_SAFE_NO_PAD, bytes)
}

/// The text that bytes hold as UTF-8.
pub open spec fn utf8_text(bytes: Seq<u8>) -> Option<Seq<char>> {
    if valid_utf8(bytes) {
        Some(decode_utf8(bytes))
    } else {
        None
    }
}

/// `String::from_utf8`: the text that the bytes encode, when they are valid UTF-8, else the bytes
/// themselves, which `FromUtf8Error::into_bytes` hands back.
#[verifier::external_body]
pub(crate) fn from_utf8(bytes: Vec<u8>) -> (r: Result<String, Vec<u8>>)
    ensures
        match r {
            Ok(content) => utf8_text(bytes@) == Some(content@),
            Err(refused) => utf8_text(bytes@) is None && refused@ == bytes@,
        },
{
    String::from_utf8(bytes).map_err(|error| error.into_bytes())
}

} // verus!

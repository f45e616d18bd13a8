//! Base64 transport of key bytes.

use vstd::prelude::*;

verus! {

/// The URL-safe, padded base64 text of a byte string.
pub uninterp spec fn url_base64_text(bytes: Seq<u8>) -> Seq<char>;

/// The bytes that a URL-safe base64 text stands for, if it is one.
pub uninterp spec fn url_base64_bytes(text: Seq<char>) -> Option<Seq<u8>>;

/// The standard, padded base64 text of a byte string.
pub uninterp spec fn std_base64_text(bytes: Seq<u8>) -> Seq<char>;

/// Encodes bytes with the URL-safe alphabet and padding.
///
/// Trusted: calls `base64::encode_config` with `base64::URL_SAFE`. The
/// contract names the text and claims that decoding it with the same
/// configuration gives the bytes back.
#[verifier::external_body]
pub(crate) fn encode_url(bytes: &[u8]) -> (text: String)
    ensures
        text@ == url_base64_text(bytes@),
        url_base64_bytes(text@) == Some(bytes@),
{
    base64::encode_config(bytes, base64::URL_SAFE)
}

/// Decodes URL-safe base64 text, padded or not.
///
/// Trusted: calls `base64::decode_config` with `base64::URL_SAFE`. The
/// contract names the decoded bytes and says that an error comes exactly
/// where the text stands for none.
#[verifier::external_body]
pub(crate) fn decode_url(text: &str) -> (r: Result<Vec<u8>, base64::DecodeError>)
    ensures
        match r {
            Ok(bytes) => url_base64_bytes(text@) == Some(bytes@),
            Err(_) => url_base64_bytes(text@) is None,
        },
{
    base64::decode_config(text, base64::URL_SAFE)
}

/// Encodes bytes with the standard alphabet and padding.
///
/// Trusted: calls `base64::encode`. The contract names the text and claims
/// that it is ASCII, as every character of the alphabet and the padding is.
#[verifier::external_body]
pub(crate) fn encode_std(bytes: &[u8]) -> (text: String)
    ensures
        text@ == std_base64_text(bytes@),
        text.is_ascii(),
{
    base64::encode(bytes)
}

} // verus!

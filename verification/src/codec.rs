//! Base64 coding, done by the `base64` crate.

use base64::engine::general_purpose::{STANDARD, URL_SAFE_NO_PAD};
use base64::Engine;
use vstd::prelude::*;

verus! {

/// The bytes that the `URL_SAFE_NO_PAD` engine decodes from `input`, or `None`
/// where it rejects the input.
pub uninterp spec fn base64url_decoded(input: Seq<u8>) -> Option<Seq<u8>>;

/// The text that the `STANDARD` engine encodes `input` to.
pub uninterp spec fn base64_encoded(input: Seq<u8>) -> Seq<char>;

/// Decodes unpadded URL-safe base64 with `Engine::decode` of `URL_SAFE_NO_PAD`.
///
/// The result is a function of the input alone; an input that the engine
/// rejects gives `None`.
#[verifier::external_body]
fn url_safe_decode(input: &[u8]) -> (r: Option<Vec<u8>>)
    ensures
        match r {
            Some(bytes) => base64url_decoded(input@) == Some(bytes@),
            None => base64url_decoded(input@) is None,
        },
{
    URL_SAFE_NO_PAD.decode(input).ok()
}

/// Encodes padded standard base64 with `Engine::encode` of `STANDARD`.
///
/// The result is a function of the input alone.
#[verifier::external_body]
fn standard_encode(input: &[u8]) -> (r: String)
    ensures
        r@ == base64_encoded(input@),
{
    STANDARD.encode(input)
}

/// Decodes unpadded URL-safe base64.
pub fn decode_base64url(input: &[u8]) -> (r: Option<Vec<u8>>)
    ensures
        match r {
            Some(bytes) => base64url_decoded(input@) == Some(bytes@),
            None => base64url_decoded(input@) is None,
        },
{
    url_safe_decode(input)
}

/// Encodes padded standard base64.
pub fn encode_base64(input: &[u8]) -> (r: String)
    ensures
        r@ == base64_encoded(input@),
{
    standard_encode(input)
}

} // verus!

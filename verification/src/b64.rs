//! Base64 transport encoding of sealed blobs.
//!
//! The blob travels inside JSON, so it is rendered with the standard
//! alphabet, padded. What the encoding looks like is left to the outside
//! crate; the contracts name its results and state only the round trip
//! that its documentation promises.

use base64::Engine;
use vstd::prelude::*;

verus! {

/// What base64::engine::general_purpose::STANDARD encodes a byte string to.
pub uninterp spec fn b64_of(b: Seq<u8>) -> Seq<char>;

/// What base64::engine::general_purpose::STANDARD decodes a string to:
/// the bytes, or nothing when the string is no valid padded base64.
pub uninterp spec fn b64_decoded(s: Seq<char>) -> Option<Seq<u8>>;

/// Relies on base64's Engine::encode with the standard padded alphabet;
/// its documentation promises that Engine::decode inverts it.
#[verifier::external_body]
pub fn b64_encode(b: &[u8]) -> (r: String)
    ensures
        r@ == b64_of(b@),
        b64_decoded(r@) == Some(b@),
{
    base64::engine::general_purpose::STANDARD.encode(b)
}

/// Relies on base64's Engine::decode with the standard padded alphabet.
#[verifier::external_body]
pub fn b64_decode(s: &str) -> (r: Option<Vec<u8>>)
    ensures
        r is Some <==> b64_decoded(s@) is Some,
        r matches Some(v) ==> Some(v@) == b64_decoded(s@),
{
    base64::engine::general_purpose::STANDARD.decode(s).ok()
}

} // verus!

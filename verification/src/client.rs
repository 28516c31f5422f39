//! The client's two commands, less their transport: what `create` sends
//! and prints, and what `get` does with the answer.
//!
//! The network call itself stays outside; these functions compute the
//! request before it and interpret the response after it.

use crate::codec::{SealedPaste, open_spec, seal};
use crate::crypto::AEAD_MAX_PLAINTEXT_LEN;
use crate::errors::{ClientError, CodecError};
use crate::reference::{format_reference, reference_of};
use crate::timefmt::{RFC3339_MAX_TS, duration_secs, parse_duration, render_rfc3339,
    rfc3339_render, rfc3339_timestamp};
use crate::wire::CreatePasteRequest;
use vstd::prelude::*;
use vstd::string::StringExecFns;

verus! {

/// Everything the `create` command computes before its network call: the
/// request to send, and the key that stays with the user.
pub struct PreparedCreate {
    /// The request body: the sealed blob, and the expiry if one was asked
    /// for.
    pub request: CreatePasteRequest,
    /// The fresh 256-bit key; never part of the request.
    pub key: Vec<u8>,
}

/// Seal the content under a fresh key and resolve the optional expiry
/// duration into the absolute RFC 3339 timestamp the server expects.
///
/// Opening the request's blob with the returned key gives the content
/// back. Sealing refuses exactly the contents longer than the cipher
/// accepts; a duration that does not parse, or one that carries the
/// expiry past the last second of year 9999 — the latest instant whose
/// RFC 3339 rendering the server parses back — is a validation error;
/// everything else is owed a request.
pub fn build_create_request(content: &str, expires: Option<&str>, now: i64) -> (r: Result<
    PreparedCreate,
    ClientError,
>)
    requires
        0 <= now,
    ensures
        r == Err::<PreparedCreate, ClientError>(ClientError::Seal) <==> vstd::utf8::encode_utf8(
            content@,
        ).len() > AEAD_MAX_PLAINTEXT_LEN,
        r == Err::<PreparedCreate, ClientError>(ClientError::Validation) <==> (
        vstd::utf8::encode_utf8(content@).len() <= AEAD_MAX_PLAINTEXT_LEN && (expires matches Some(
            es,
        ) && (duration_secs(es@) is None || (duration_secs(es@) matches Some(d) && now + d
            > RFC3339_MAX_TS)))),
        r matches Ok(p) ==> {
            &&& p.key@.len() == 32
            &&& open_spec(p.request.content@, p.key@) == Ok::<Seq<char>, CodecError>(content@)
            &&& (expires is None ==> p.request.expires_at is None)
            &&& (expires matches Some(es) ==> duration_secs(es@) matches Some(d)
                && p.request.expires_at matches Some(x) && x@ == rfc3339_render(now + d)
                && rfc3339_timestamp(x@) == Some(now + d))
        },
        (vstd::utf8::encode_utf8(content@).len() <= AEAD_MAX_PLAINTEXT_LEN && (expires matches Some(
            es,
        ) && duration_secs(es@) matches Some(d) && now + d <= RFC3339_MAX_TS)) ==> r is Ok,
        expires is None && vstd::utf8::encode_utf8(content@).len() <= AEAD_MAX_PLAINTEXT_LEN ==> r
            is Ok,
{
    let sealed: SealedPaste = match seal(content) {
        Ok(sp) => sp,
        Err(_) => {
            return Err(ClientError::Seal);
        },
    };
    let expires_at: Option<String> = match expires {
        Some(es) => {
            let d = match parse_duration(es) {
                Some(d) => d,
                None => {
                    return Err(ClientError::Validation);
                },
            };
            if d > (i64::MAX - now) as u64 {
                return Err(ClientError::Validation);
            }
            let exp: i64 = now + (d as i64);
            if exp > RFC3339_MAX_TS {
                return Err(ClientError::Validation);
            }
            Some(render_rfc3339(exp))
        },
        None => None,
    };
    Ok(PreparedCreate { request: CreatePasteRequest { content: sealed.blob, expires_at }, key: sealed.key })
}

/// The line the `create` command prints: a ready-to-use retrieval command
/// holding the reference string, the paste's sole credential.
pub fn format_retrieval_command(uuid: &str, key: &[u8]) -> (r: String)
    ensures
        r@ == "ghostink get "@ + reference_of(uuid@, key@),
{
    let mut out = "ghostink get ".to_owned();
    let reference = format_reference(uuid, key);
    out.append(reference.as_str());
    out
}

} // verus!

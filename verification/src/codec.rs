//! The client-side codec: seal plaintext into an opaque blob, open a blob
//! back into plaintext.
//!
//! A sealed blob is the 12-byte nonce followed by the ciphertext and its
//! tag, rendered as padded base64 for the textual transport. Opening
//! inverts each step and reports exactly which one refused.

use crate::b64::{b64_decode, b64_decoded, b64_encode};
use crate::crypto::{
    AEAD_MAX_PLAINTEXT_LEN, aead_decrypt, aead_encrypt, aead_plain, fresh_key_and_nonce,
};
use crate::errors::CodecError;
use vstd::prelude::*;

verus! {

/// Number of bytes in the nonce that prefixes every sealed blob.
pub const NONCE_LEN: usize = 12;

/// Number of bytes in a paste's symmetric key.
pub const KEY_LEN: usize = 32;

/// A freshly sealed paste: the blob that goes to the server and the key
/// that never does.
pub struct SealedPaste {
    /// Padded base64 rendering of the nonce followed by the ciphertext.
    pub blob: String,
    /// The fresh 256-bit key.
    pub key: Vec<u8>,
}

/// What opening the decoded blob bytes with a key yields: the plaintext
/// bytes, or the error that the codec reports.
pub open spec fn open_bytes_spec(bytes: Seq<u8>, key: Seq<u8>) -> Result<Seq<u8>, CodecError> {
    if bytes.len() < NONCE_LEN {
        Err(CodecError::Format)
    } else {
        match aead_plain(
            key,
            bytes.subrange(0, NONCE_LEN as int),
            bytes.subrange(NONCE_LEN as int, bytes.len() as int),
        ) {
            Some(p) => Ok(p),
            None => Err(CodecError::Authentication),
        }
    }
}

/// What opening a transmitted blob with a key yields: the plaintext, or
/// the error that the codec reports.
pub open spec fn open_spec(blob: Seq<char>, key: Seq<u8>) -> Result<Seq<char>, CodecError> {
    match b64_decoded(blob) {
        None => Err(CodecError::Decode),
        Some(bytes) => match open_bytes_spec(bytes, key) {
            Err(e) => Err(e),
            Ok(p) => if vstd::utf8::valid_utf8(p) {
                Ok(vstd::utf8::decode_utf8(p))
            } else {
                Err(CodecError::Encoding)
            },
        },
    }
}

/// Relies on String::from_utf8: returns the text exactly when the bytes
/// are valid UTF-8.
#[verifier::external_body]
fn utf8_to_string(v: Vec<u8>) -> (r: Option<String>)
    ensures
        r is Some <==> vstd::utf8::valid_utf8(v@),
        r matches Some(s) ==> s@ == vstd::utf8::decode_utf8(v@),
{
    String::from_utf8(v).ok()
}

/// Seal a plaintext under a fresh random key and nonce.
///
/// On success, opening the returned blob with the returned key gives the
/// plaintext back, and the blob decodes to the 12-byte nonce followed by
/// the ciphertext and its 16-byte tag; sealing fails exactly when the
/// plaintext is longer than the cipher accepts.
pub fn seal(plaintext: &str) -> (r: Result<SealedPaste, CodecError>)
    ensures
        r matches Ok(sp) ==> sp.key@.len() == KEY_LEN && open_spec(sp.blob@, sp.key@) == Ok::<
            Seq<char>,
            CodecError,
        >(plaintext@),
        r matches Ok(sp) ==> b64_decoded(sp.blob@) matches Some(b) && b.len()
            == vstd::utf8::encode_utf8(plaintext@).len() + NONCE_LEN + 16,
        r is Err <==> vstd::utf8::encode_utf8(plaintext@).len() > AEAD_MAX_PLAINTEXT_LEN,
        r matches Err(e) ==> e == CodecError::Seal,
{
    let (key, nonce) = fresh_key_and_nonce();
    let pt = plaintext.as_bytes();
    let ct = match aead_encrypt(key.as_slice(), nonce.as_slice(), pt) {
        Some(c) => c,
        None => {
            return Err(CodecError::Seal);
        },
    };
    let mut bytes = nonce;
    let mut tail = ct;
    let ghost ct_view = tail@;
    bytes.append(&mut tail);
    let blob = b64_encode(bytes.as_slice());
    proof {
        broadcast use vstd::utf8::encode_utf8_valid_utf8, vstd::utf8::encode_utf8_decode_utf8;

        assert(bytes@.subrange(0, NONCE_LEN as int) =~= nonce@);
        assert(bytes@.subrange(NONCE_LEN as int, bytes@.len() as int) =~= ct_view);
    }
    Ok(SealedPaste { blob, key })
}

/// Open a transmitted blob with a key.
///
/// Decodes the base64, splits off the nonce, decrypts, and reads the
/// plaintext as UTF-8 text, reporting exactly which step refused.
pub fn open(blob: &str, key: &[u8]) -> (r: Result<String, CodecError>)
    requires
        key@.len() == KEY_LEN,
    ensures
        r matches Ok(s) ==> open_spec(blob@, key@) == Ok::<Seq<char>, CodecError>(s@),
        r matches Err(e) ==> open_spec(blob@, key@) == Err::<Seq<char>, CodecError>(e),
{
    let bytes = match b64_decode(blob) {
        Some(b) => b,
        None => {
            return Err(CodecError::Decode);
        },
    };
    if bytes.len() < NONCE_LEN {
        return Err(CodecError::Format);
    }
    let nonce = vstd::slice::slice_subrange(bytes.as_slice(), 0, NONCE_LEN);
    let ct = vstd::slice::slice_subrange(bytes.as_slice(), NONCE_LEN, bytes.len());
    let pt = match aead_decrypt(key, nonce, ct) {
        Some(p) => p,
        None => {
            return Err(CodecError::Authentication);
        },
    };
    match utf8_to_string(pt) {
        Some(s) => Ok(s),
        None => Err(CodecError::Encoding),
    }
}

} // verus!

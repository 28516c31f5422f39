//! Error taxonomy of the library.
//!
//! Client-side codec failures and server-side store failures are kept
//! apart: a codec error never reaches the server, and a store error never
//! names key material.

use vstd::prelude::*;

verus! {

/// Failure of the client-side codec while opening a blob or parsing a
/// reference string.
#[derive(Clone, Copy, Debug, PartialEq, Eq, Structural)]
pub enum CodecError {
    /// The blob is not valid base64.
    Decode,
    /// The blob or the reference string has the wrong shape (too short to
    /// hold a nonce, no single `#` separator, or a key of the wrong size).
    Format,
    /// The authentication tag did not verify: the blob was tampered with or
    /// the key is wrong. The two are deliberately not distinguished.
    Authentication,
    /// The decrypted bytes are not valid UTF-8 text.
    Encoding,
    /// The cipher refused to seal the plaintext (it is longer than the AEAD
    /// accepts in one message).
    Seal,
}

/// Failure of the client while preparing a creation request.
#[derive(Clone, Copy, Debug, PartialEq, Eq, Structural)]
pub enum ClientError {
    /// The expiry duration string is malformed, or the expiry it asks for
    /// falls outside the range a timestamp can hold.
    Validation,
    /// The cipher refused to seal the plaintext.
    Seal,
}

/// Failure of a server-side operation.
#[derive(Clone, Copy, Debug, PartialEq, Eq, Structural)]
pub enum ApiError {
    /// The request carried a malformed field (an unparsable expiry).
    Validation,
    /// No live paste has the requested id.
    NotFound,
    /// The store could not complete the operation (a fresh id collided
    /// with a stored one).
    Storage,
}

} // verus!

//! The JSON wire contract between client and server, as plain values.
//!
//! The transport layer serializes these; the library only states what the
//! fields hold.

use vstd::prelude::*;

verus! {

/// Request to create a new paste.
#[derive(Debug, PartialEq, Eq)]
pub struct CreatePasteRequest {
    /// Base64-encoded sealed blob (nonce followed by ciphertext).
    pub content: String,
    /// Optional absolute expiry as an RFC 3339 timestamp. When absent the
    /// server uses its default of one day.
    pub expires_at: Option<String>,
}

/// Response to a creation request.
#[derive(Debug, PartialEq, Eq)]
pub struct CreatePasteResponse {
    /// The identifier under which the paste can be retrieved.
    pub uuid: String,
}

/// Response to a retrieval request.
#[derive(Debug, PartialEq, Eq)]
pub struct GetPasteResponse {
    /// The sealed blob, exactly as it was uploaded.
    pub content: String,
}

} // verus!

//! GhostInk: an end-to-end-encrypted pastebin library.
//!
//! A client seals plaintext into an opaque blob under a fresh key, uploads
//! only the blob, and later retrieves and opens it with a reference string
//! that never reaches the server. The server stores blobs under random
//! identifiers with an expiry, and never holds key material.
//!
//! The codec lives in [`codec`] and [`reference`], the server's store and
//! handlers in [`store`] and [`api`], the client's command logic in
//! [`client`], and the wire types in [`wire`].

pub mod api;
pub mod b64;
pub mod client;
pub mod codec;
pub mod crypto;
pub mod errors;
pub mod hexcode;
pub mod reference;
pub mod store;
pub mod timefmt;
pub mod wire;

//! The AEAD cipher and the randomness behind seal and open.
//!
//! Encryption and decryption are outside calls; their results are named
//! rather than restated, and the only facts assumed of them are the ones
//! the cipher's documentation gives: lengths, determinism of decryption,
//! and that decrypting a ciphertext under the key and nonce that produced
//! it yields the plaintext again.

use aes_gcm::KeyInit;
use aes_gcm::aead::Aead;
use rand::Rng;
use vstd::prelude::*;

verus! {

/// The longest plaintext the cipher accepts in one message.
pub const AEAD_MAX_PLAINTEXT_LEN: u64 = 68719476704;

/// What AES-256-GCM encryption (Aead::encrypt on Aes256Gcm) returns for a
/// key, nonce and plaintext: the ciphertext with the tag appended.
pub uninterp spec fn aead_cipher(key: Seq<u8>, nonce: Seq<u8>, plaintext: Seq<u8>) -> Seq<u8>;

/// What AES-256-GCM decryption (Aead::decrypt on Aes256Gcm) returns for a
/// key, nonce and ciphertext: the plaintext, or nothing when the tag does
/// not verify or the ciphertext has an impossible length.
pub uninterp spec fn aead_plain(key: Seq<u8>, nonce: Seq<u8>, ciphertext: Seq<u8>) -> Option<
    Seq<u8>,
>;

/// Relies on aes_gcm's Aead::encrypt for Aes256Gcm: it fails exactly on
/// plaintexts longer than the cipher's limit, appends a 16-byte tag, and
/// what it returns decrypts back to the plaintext under the same key and
/// nonce.
#[verifier::external_body]
pub fn aead_encrypt(key: &[u8], nonce: &[u8], plaintext: &[u8]) -> (r: Option<Vec<u8>>)
    requires
        key@.len() == 32,
        nonce@.len() == 12,
    ensures
        r is Some <==> plaintext@.len() <= AEAD_MAX_PLAINTEXT_LEN,
        r matches Some(c) ==> c@ == aead_cipher(key@, nonce@, plaintext@) && c@.len()
            == plaintext@.len() + 16 && aead_plain(key@, nonce@, c@) == Some(plaintext@),
{
    let cipher = match aes_gcm::Aes256Gcm::new_from_slice(key) {
        Ok(c) => c,
        Err(_) => return None,
    };
    let n = match aes_gcm::Nonce::try_from(nonce) {
        Ok(n) => n,
        Err(_) => return None,
    };
    cipher.encrypt(&n, plaintext).ok()
}

/// Relies on aes_gcm's Aead::decrypt for Aes256Gcm: deterministic in the
/// key, nonce and ciphertext, and fails rather than returning altered
/// plaintext when the tag does not verify.
#[verifier::external_body]
pub fn aead_decrypt(key: &[u8], nonce: &[u8], ciphertext: &[u8]) -> (r: Option<Vec<u8>>)
    requires
        key@.len() == 32,
        nonce@.len() == 12,
    ensures
        r is Some <==> aead_plain(key@, nonce@, ciphertext@) is Some,
        r matches Some(p) ==> Some(p@) == aead_plain(key@, nonce@, ciphertext@),
{
    let cipher = match aes_gcm::Aes256Gcm::new_from_slice(key) {
        Ok(c) => c,
        Err(_) => return None,
    };
    let n = match aes_gcm::Nonce::try_from(nonce) {
        Ok(n) => n,
        Err(_) => return None,
    };
    cipher.decrypt(&n, ciphertext).ok()
}

/// Relies on rand's thread-local generator, a cryptographically secure
/// source, to draw a fresh 256-bit key and 96-bit nonce. Nothing is
/// assumed of the values drawn.
#[verifier::external_body]
pub fn fresh_key_and_nonce() -> (r: (Vec<u8>, Vec<u8>))
    ensures
        r.0@.len() == 32,
        r.1@.len() == 12,
{
    let mut key = vec![0u8; 32];
    let mut nonce = vec![0u8; 12];
    rand::rng().fill_bytes(&mut key);
    rand::rng().fill_bytes(&mut nonce);
    (key, nonce)
}

} // verus!

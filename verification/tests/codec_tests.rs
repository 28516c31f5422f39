use aes_gcm::KeyInit;
use aes_gcm::aead::Aead;
use base64::Engine;
use ghostink::codec::{open, seal};
use ghostink::errors::CodecError;

fn roundtrip(text: &str) {
    let sealed = seal(text).unwrap();
    assert_eq!(sealed.key.len(), 32);
    let back = open(&sealed.blob, &sealed.key).unwrap();
    assert_eq!(back, text);
}

#[test]
fn round_trip_empty() {
    roundtrip("");
}

#[test]
fn round_trip_short() {
    roundtrip("hello world");
}

#[test]
fn round_trip_multikilobyte() {
    let mut text = String::new();
    for i in 0..4096 {
        text.push((b'a' + (i % 26) as u8) as char);
    }
    assert!(text.len() >= 4096);
    roundtrip(&text);
}

#[test]
fn round_trip_unicode() {
    roundtrip("naïve — ужас — 秘密 — 🤫");
}

#[test]
fn blob_layout_is_nonce_then_ciphertext_and_tag() {
    let sealed = seal("abc").unwrap();
    let bytes = base64::engine::general_purpose::STANDARD
        .decode(&sealed.blob)
        .unwrap();
    // 12-byte nonce, 3 plaintext bytes, 16-byte tag
    assert_eq!(bytes.len(), 12 + 3 + 16);
}

#[test]
fn fresh_key_and_nonce_each_seal() {
    let a = seal("same text").unwrap();
    let b = seal("same text").unwrap();
    assert_ne!(a.key, b.key);
    assert_ne!(a.blob, b.blob);
}

#[test]
fn tamper_any_single_bit_is_detected() {
    let sealed = seal("hi").unwrap();
    let bytes = base64::engine::general_purpose::STANDARD
        .decode(&sealed.blob)
        .unwrap();
    for i in 0..bytes.len() {
        for bit in 0..8 {
            let mut flipped = bytes.clone();
            flipped[i] ^= 1u8 << bit;
            let blob = base64::engine::general_purpose::STANDARD.encode(&flipped);
            assert_eq!(
                open(&blob, &sealed.key),
                Err(CodecError::Authentication),
                "bit {bit} of byte {i} went unnoticed"
            );
        }
    }
}

#[test]
fn wrong_key_is_refused() {
    let sealed = seal("secret").unwrap();
    let mut other = sealed.key.clone();
    other[0] ^= 0x01;
    assert_eq!(open(&sealed.blob, &other), Err(CodecError::Authentication));
}

#[test]
fn random_other_key_is_refused() {
    let sealed = seal("secret").unwrap();
    let other = vec![0x42u8; 32];
    if other != sealed.key {
        assert_eq!(open(&sealed.blob, &other), Err(CodecError::Authentication));
    }
}

#[test]
fn invalid_base64_is_a_decode_error() {
    let key = vec![0u8; 32];
    assert_eq!(open("not base64!!", &key), Err(CodecError::Decode));
}

#[test]
fn too_short_blob_is_a_format_error() {
    let key = vec![0u8; 32];
    let blob = base64::engine::general_purpose::STANDARD.encode([1u8, 2, 3, 4, 5]);
    assert_eq!(open(&blob, &key), Err(CodecError::Format));
}

#[test]
fn empty_blob_is_a_format_error() {
    let key = vec![0u8; 32];
    assert_eq!(open("", &key), Err(CodecError::Format));
}

#[test]
fn non_utf8_plaintext_is_an_encoding_error() {
    let key = [7u8; 32];
    let nonce = [9u8; 12];
    let cipher = aes_gcm::Aes256Gcm::new_from_slice(&key).unwrap();
    let ct = cipher
        .encrypt(&aes_gcm::Nonce::try_from(&nonce[..]).unwrap(), &[0xffu8, 0xfe, 0x00][..])
        .unwrap();
    let mut bytes = nonce.to_vec();
    bytes.extend_from_slice(&ct);
    let blob = base64::engine::general_purpose::STANDARD.encode(&bytes);
    assert_eq!(open(&blob, &key.to_vec()), Err(CodecError::Encoding));
}

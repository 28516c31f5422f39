use ghostink::errors::CodecError;
use ghostink::reference::{format_reference, parse_reference};

#[test]
fn format_renders_id_hash_lowercase_hex() {
    let key = vec![0u8; 32];
    let r = format_reference("abc", &key);
    let mut expected = String::from("abc#");
    expected.push_str(&"0".repeat(64));
    assert_eq!(r, expected);
}

#[test]
fn format_renders_mixed_bytes() {
    let key: Vec<u8> = (0..32).map(|i| (i * 8 + 1) as u8).collect();
    let r = format_reference("id", &key);
    assert_eq!(r, format!("id#{}", hex::encode(&key)));
}

#[test]
fn reference_round_trips() {
    let key: Vec<u8> = (0..32).map(|i| (255 - i) as u8).collect();
    let id = "9b2d3a60-1b18-4f86-9d6b-7a2f7a64f7cd";
    let r = format_reference(id, &key);
    let (id2, key2) = parse_reference(&r).unwrap();
    assert_eq!(id2, id);
    assert_eq!(key2, key);
}

#[test]
fn no_separator_is_a_format_error() {
    assert_eq!(parse_reference("abc"), Err(CodecError::Format));
}

#[test]
fn two_separators_is_a_format_error() {
    let r = format!("abc#{}#", "0".repeat(64));
    assert_eq!(parse_reference(&r), Err(CodecError::Format));
}

#[test]
fn short_key_is_a_format_error() {
    // 31 bytes of hex after the separator
    let r = format!("abc#{}", "0".repeat(62));
    assert_eq!(parse_reference(&r), Err(CodecError::Format));
}

#[test]
fn odd_hex_length_is_a_format_error() {
    let r = format!("abc#{}", "0".repeat(63));
    assert_eq!(parse_reference(&r), Err(CodecError::Format));
}

#[test]
fn non_hex_key_is_a_format_error() {
    let r = format!("abc#zz{}", "0".repeat(62));
    assert_eq!(parse_reference(&r), Err(CodecError::Format));
}

#[test]
fn upper_case_hex_is_accepted() {
    let r = format!("abc#{}", "AB".repeat(32));
    let (id, key) = parse_reference(&r).unwrap();
    assert_eq!(id, "abc");
    assert_eq!(key, vec![0xabu8; 32]);
}

#[test]
fn empty_id_parses() {
    let r = format!("#{}", "11".repeat(32));
    let (id, key) = parse_reference(&r).unwrap();
    assert_eq!(id, "");
    assert_eq!(key, vec![0x11u8; 32]);
}

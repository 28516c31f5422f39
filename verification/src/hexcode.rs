//! Hexadecimal rendering of byte strings, as used in reference strings.
//!
//! The spec functions here state exactly what the `hex` crate computes, so
//! the wrappers' contracts pin the outside calls down completely.

use vstd::prelude::*;

verus! {

/// The character that renders a nibble (a value below 16), lower case.
pub open spec fn hex_digit_char(n: u8) -> char
    recommends
        n < 16,
{
    if n < 10 {
        ((n + 48) as u8) as char
    } else {
        ((n + 87) as u8) as char
    }
}

/// Lower-case hex rendering of a byte string: two digits per byte, high
/// nibble first.
pub open spec fn hex_of(b: Seq<u8>) -> Seq<char> {
    Seq::new(
        b.len() * 2,
        |i: int|
            if i % 2 == 0 {
                hex_digit_char(b[i / 2] / 16)
            } else {
                hex_digit_char(b[i / 2] % 16)
            },
    )
}

/// A character that stands for a nibble, in either case.
pub open spec fn is_hex_digit(c: char) -> bool {
    (48 <= c as u32 && c as u32 <= 57) || (97 <= c as u32 && c as u32 <= 102) || (65 <= c as u32
        && c as u32 <= 70)
}

/// A character that stands for a nibble in lower case, as this library's
/// renderings and a paste identifier use it.
pub open spec fn is_lower_hex_digit(c: char) -> bool {
    (48 <= c as u32 && c as u32 <= 57) || (97 <= c as u32 && c as u32 <= 102)
}

/// The nibble a hex digit stands for.
pub open spec fn hex_val(c: char) -> int
    recommends
        is_hex_digit(c),
{
    if 48 <= c as u32 && c as u32 <= 57 {
        c as u32 - 48
    } else if 97 <= c as u32 && c as u32 <= 102 {
        c as u32 - 87
    } else {
        c as u32 - 55
    }
}

/// An even-length string of hex digits.
pub open spec fn is_hex_seq(s: Seq<char>) -> bool {
    s.len() % 2 == 0 && (forall|i: int| 0 <= i < s.len() ==> is_hex_digit(#[trigger] s[i]))
}

/// The bytes an even-length string of hex digits stands for.
pub open spec fn hex_bytes(s: Seq<char>) -> Seq<u8>
    recommends
        is_hex_seq(s),
{
    Seq::new(s.len() / 2, |i: int| (16 * hex_val(s[2 * i]) + hex_val(s[2 * i + 1])) as u8)
}

/// What decoding a candidate hex string yields: the bytes, or nothing when
/// the string has odd length or holds a character that is no hex digit.
pub open spec fn hex_decoded(s: Seq<char>) -> Option<Seq<u8>> {
    if is_hex_seq(s) {
        Some(hex_bytes(s))
    } else {
        None
    }
}

/// Relies on hex::encode: lower-case hex, two digits per byte, high nibble
/// first.
#[verifier::external_body]
pub fn hex_encode(b: &[u8]) -> (r: String)
    ensures
        r@ == hex_of(b@),
{
    hex::encode(b)
}

/// Relies on hex::decode: accepts digits of either case, rejects odd length
/// and any character that is no hex digit.
#[verifier::external_body]
pub fn hex_decode(s: &str) -> (r: Option<Vec<u8>>)
    ensures
        r is Some <==> hex_decoded(s@) is Some,
        r matches Some(v) ==> Some(v@) == hex_decoded(s@),
{
    hex::decode(s).ok()
}

/// A rendered nibble is a hex digit, and reads back as the nibble.
pub proof fn lemma_hex_digit_char(n: u8)
    requires
        n < 16,
    ensures
        is_hex_digit(hex_digit_char(n)),
        hex_val(hex_digit_char(n)) == n as int,
{
}

/// Hex rendering round-trips: decoding the rendering of any byte string
/// gives the byte string back.
pub proof fn lemma_hex_roundtrip(b: Seq<u8>)
    ensures
        hex_decoded(hex_of(b)) == Some(b),
{
    let h = hex_of(b);
    assert forall|i: int| 0 <= i < h.len() implies is_hex_digit(#[trigger] h[i]) by {
        if i % 2 == 0 {
            lemma_hex_digit_char(b[i / 2] / 16);
        } else {
            lemma_hex_digit_char(b[i / 2] % 16);
        }
    }
    assert(is_hex_seq(h));
    assert forall|i: int| 0 <= i < b.len() implies hex_bytes(h)[i] == b[i] by {
        lemma_hex_digit_char(b[i] / 16);
        lemma_hex_digit_char(b[i] % 16);
        assert((2 * i) / 2 == i && (2 * i) % 2 == 0);
        assert((2 * i + 1) / 2 == i && (2 * i + 1) % 2 == 1);
        assert(h[2 * i] == hex_digit_char(b[i] / 16));
        assert(h[2 * i + 1] == hex_digit_char(b[i] % 16));
        assert(16 * (b[i] / 16) + b[i] % 16 == b[i]);
    }
    assert(hex_bytes(h) =~= b);
}

} // verus!

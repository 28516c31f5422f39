//! The user-facing reference string `id#hexkey`: the sole credential for a
//! paste, rendered for display and parsed back on retrieval.

use crate::errors::CodecError;
use crate::hexcode::{
    hex_decode, hex_decoded, hex_encode, hex_of, is_hex_digit, lemma_hex_digit_char,
    lemma_hex_roundtrip,
};
use vstd::prelude::*;
use vstd::string::StrSliceExecFns;
use vstd::string::StringExecFns;

verus! {

/// How many separator characters a string holds.
pub open spec fn hash_count(s: Seq<char>) -> nat
    decreases s.len(),
{
    if s.len() == 0 {
        0
    } else {
        hash_count(s.drop_last()) + if s.last() == '#' {
            1nat
        } else {
            0nat
        }
    }
}

/// The reference string for an id and key: the id, one `#`, and the key in
/// lower-case hex.
pub open spec fn reference_of(id: Seq<char>, key: Seq<u8>) -> Seq<char> {
    id + seq!['#'] + hex_of(key)
}

/// What parsing a reference string yields: the id and the 32-byte key, or
/// a format error when the string does not hold exactly one `#`, the key
/// half is no hex, or the key has the wrong size.
pub open spec fn parse_reference_spec(s: Seq<char>) -> Result<(Seq<char>, Seq<u8>), CodecError> {
    if hash_count(s) != 1 {
        Err(CodecError::Format)
    } else {
        let i = choose|i: int| 0 <= i < s.len() && s[i] == '#';
        match hex_decoded(s.subrange(i + 1, s.len() as int)) {
            Some(k) => if k.len() == 32 {
                Ok((s.subrange(0, i), k))
            } else {
                Err(CodecError::Format)
            },
            None => Err(CodecError::Format),
        }
    }
}

/// Separator counts add over concatenation.
proof fn lemma_hash_count_concat(a: Seq<char>, b: Seq<char>)
    ensures
        hash_count(a + b) == hash_count(a) + hash_count(b),
    decreases b.len(),
{
    if b.len() == 0 {
        assert(a + b =~= a);
    } else {
        assert((a + b).drop_last() =~= a + b.drop_last());
        assert((a + b).last() == b.last());
        lemma_hash_count_concat(a, b.drop_last());
    }
}

/// A string holds no separator exactly when its separator count is zero.
proof fn lemma_hash_count_zero(s: Seq<char>)
    ensures
        hash_count(s) == 0 <==> (forall|i: int| 0 <= i < s.len() ==> s[i] != '#'),
    decreases s.len(),
{
    if s.len() > 0 {
        lemma_hash_count_zero(s.drop_last());
        if hash_count(s) == 0 {
            assert forall|i: int| 0 <= i < s.len() implies s[i] != '#' by {
                if i < s.len() - 1 {
                    assert(s.drop_last()[i] == s[i]);
                }
            }
        }
    }
}

/// In a string with exactly one separator, any two separator positions
/// coincide.
proof fn lemma_hash_count_unique(s: Seq<char>, i: int, j: int)
    requires
        hash_count(s) == 1,
        0 <= i < s.len() && s[i] == '#',
        0 <= j < s.len() && s[j] == '#',
    ensures
        i == j,
{
    if i != j {
        let lo = if i < j {
            i
        } else {
            j
        };
        let hi = if i < j {
            j
        } else {
            i
        };
        let front = s.subrange(0, lo + 1);
        let back = s.subrange(lo + 1, s.len() as int);
        assert(s =~= front + back);
        lemma_hash_count_concat(front, back);
        assert(front.last() == '#');
        assert(hash_count(front) >= 1);
        assert(back[hi - lo - 1] == '#');
        lemma_hash_count_zero(back);
        assert(hash_count(back) >= 1);
    }
}

/// Render the reference string for an id and key.
pub fn format_reference(id: &str, key: &[u8]) -> (r: String)
    ensures
        r@ == reference_of(id@, key@),
{
    let mut out = id.to_owned();
    out.append("#");
    let key_hex = hex_encode(key);
    out.append(key_hex.as_str());
    proof {
        reveal_strlit("#");
        assert("#"@ =~= seq!['#']);
    }
    out
}

/// Parse a reference string into its id and 32-byte key.
pub fn parse_reference(s: &str) -> (r: Result<(String, Vec<u8>), CodecError>)
    ensures
        r matches Ok(p) ==> parse_reference_spec(s@) == Ok::<(Seq<char>, Seq<u8>), CodecError>(
            (p.0@, p.1@),
        ) && p.1@.len() == 32,
        r matches Err(e) ==> parse_reference_spec(s@) == Err::<(Seq<char>, Seq<u8>), CodecError>(e),
{
    let n = s.unicode_len();
    let mut i: usize = 0;
    let mut cnt: usize = 0;
    let mut pos: usize = 0;
    while i < n
        invariant
            i <= n,
            n == s@.len(),
            cnt <= i,
            cnt == hash_count(s@.subrange(0, i as int)),
            cnt > 0 ==> pos < i && s@[pos as int] == '#',
        decreases n - i,
    {
        proof {
            assert(s@.subrange(0, i + 1).drop_last() =~= s@.subrange(0, i as int));
        }
        if s.get_char(i) == '#' {
            if cnt == 0 {
                pos = i;
            }
            cnt = cnt + 1;
        }
        i = i + 1;
    }
    proof {
        assert(s@.subrange(0, n as int) =~= s@);
    }
    if cnt != 1 {
        return Err(CodecError::Format);
    }
    let ghost chosen = choose|k: int| 0 <= k < s@.len() && s@[k] == '#';
    proof {
        lemma_hash_count_unique(s@, pos as int, chosen);
    }
    let id_part = s.substring_char(0, pos);
    let key_part = s.substring_char(pos + 1, n);
    match hex_decode(key_part) {
        Some(k) => {
            if k.len() == 32 {
                Ok((id_part.to_owned(), k))
            } else {
                Err(CodecError::Format)
            }
        },
        None => Err(CodecError::Format),
    }
}

/// A rendered key holds only hex digits, so it holds no separator.
proof fn lemma_hex_of_no_hash(key: Seq<u8>)
    ensures
        forall|i: int| 0 <= i < hex_of(key).len() ==> hex_of(key)[i] != '#',
{
    assert forall|i: int| 0 <= i < hex_of(key).len() implies hex_of(key)[i] != '#' by {
        if i % 2 == 0 {
            lemma_hex_digit_char(key[i / 2] / 16);
        } else {
            lemma_hex_digit_char(key[i / 2] % 16);
        }
        assert(is_hex_digit(hex_of(key)[i]));
        assert('#' as u32 == 35);
    }
}

/// Reference strings round-trip: parsing the rendering of any id that
/// holds no separator and any 32-byte key gives both back.
pub proof fn lemma_reference_roundtrip(id: Seq<char>, key: Seq<u8>)
    requires
        key.len() == 32,
        forall|i: int| 0 <= i < id.len() ==> id[i] != '#',
    ensures
        parse_reference_spec(reference_of(id, key)) == Ok::<(Seq<char>, Seq<u8>), CodecError>(
            (id, key),
        ),
{
    let h = hex_of(key);
    let s = reference_of(id, key);
    lemma_hash_count_zero(id);
    lemma_hex_of_no_hash(key);
    lemma_hash_count_zero(h);
    assert(hash_count(seq!['#']) == 1) by {
        let one = seq!['#'];
        assert(one.drop_last() =~= Seq::<char>::empty());
        assert(hash_count(Seq::<char>::empty()) == 0);
        assert(one.last() == '#');
    }
    lemma_hash_count_concat(id, seq!['#']);
    lemma_hash_count_concat(id + seq!['#'], h);
    assert(hash_count(s) == 1);
    let i = choose|i: int| 0 <= i < s.len() && s[i] == '#';
    assert(s[id.len() as int] == '#');
    lemma_hash_count_unique(s, i, id.len() as int);
    assert(s.subrange(0, id.len() as int) =~= id);
    assert(s.subrange(id.len() as int + 1, s.len() as int) =~= h);
    lemma_hex_roundtrip(key);
}

} // verus!

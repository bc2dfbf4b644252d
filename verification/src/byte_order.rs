//! Byte-wise lexicographic order, the order in which object-store keys are
//! compared.

use vstd::prelude::*;
use vstd::string::StringSliceAdditionalSpecFns;
use vstd::utf8::{encode_utf8, encode_utf8_decode_utf8};

verus! {

/// `a` and `b` hold the same bytes at every position below `k`.
pub open spec fn agree_below(a: Seq<u8>, b: Seq<u8>, k: int) -> bool {
    &&& 0 <= k <= a.len()
    &&& k <= b.len()
    &&& forall|j: int| 0 <= j < k ==> a[j] == b[j]
}

/// `a` sorts before `b`, or equals it: at the first position where the two
/// differ `a` holds the smaller byte, or `a` ends there.
pub open spec fn lex_le(a: Seq<u8>, b: Seq<u8>) -> bool {
    exists|k: int| #[trigger]
        agree_below(a, b, k) && (k == a.len() || (k < b.len() && a[k] < b[k]))
}

/// The bytes a key is stored and compared as: its UTF-8 encoding.
pub open spec fn key_bytes(key: Seq<char>) -> Seq<u8> {
    encode_utf8(key)
}

/// Order of two keys, by their bytes.
pub open spec fn key_le(a: Seq<char>, b: Seq<char>) -> bool {
    lex_le(key_bytes(a), key_bytes(b))
}

/// Every sequence is at most itself.
pub proof fn lex_le_reflexive(a: Seq<u8>)
    ensures
        lex_le(a, a),
{
    assert(agree_below(a, a, a.len() as int));
}

/// Any two sequences are comparable.
pub proof fn lex_le_total(a: Seq<u8>, b: Seq<u8>)
    ensures
        lex_le(a, b) || lex_le(b, a),
{
    let k = first_difference(a, b, 0);
    first_difference_agrees(a, b, 0);
    assert(agree_below(b, a, k));
}

/// Two sequences that are each at most the other are equal.
pub proof fn lex_le_antisymmetric(a: Seq<u8>, b: Seq<u8>)
    requires
        lex_le(a, b),
        lex_le(b, a),
    ensures
        a == b,
{
    let k = choose|k: int| #[trigger]
        agree_below(a, b, k) && (k == a.len() || (k < b.len() && a[k] < b[k]));
    let m = choose|m: int| #[trigger]
        agree_below(b, a, m) && (m == b.len() || (m < a.len() && b[m] < a[m]));
}

/// The order is transitive.
pub proof fn lex_le_transitive(a: Seq<u8>, b: Seq<u8>, c: Seq<u8>)
    requires
        lex_le(a, b),
        lex_le(b, c),
    ensures
        lex_le(a, c),
{
    let k = choose|k: int| #[trigger]
        agree_below(a, b, k) && (k == a.len() || (k < b.len() && a[k] < b[k]));
    let m = choose|m: int| #[trigger]
        agree_below(b, c, m) && (m == b.len() || (m < c.len() && b[m] < c[m]));
    let n = if k <= m { k } else { m };
    assert(agree_below(a, c, n));
}

/// Keys with the same bytes are the same key.
pub proof fn key_bytes_tell_keys_apart(a: Seq<char>, b: Seq<char>)
    requires
        key_bytes(a) == key_bytes(b),
    ensures
        a == b,
{
    encode_utf8_decode_utf8(a);
    encode_utf8_decode_utf8(b);
}

/// The order of keys is a total order: any two keys are comparable, keys
/// that are each at most the other are one key, and the order is transitive.
pub proof fn key_le_is_total_order(a: Seq<char>, b: Seq<char>, c: Seq<char>)
    ensures
        key_le(a, a),
        key_le(a, b) || key_le(b, a),
        key_le(a, b) && key_le(b, a) ==> a == b,
        key_le(a, b) && key_le(b, c) ==> key_le(a, c),
{
    lex_le_reflexive(key_bytes(a));
    lex_le_total(key_bytes(a), key_bytes(b));
    if key_le(a, b) && key_le(b, a) {
        lex_le_antisymmetric(key_bytes(a), key_bytes(b));
        key_bytes_tell_keys_apart(a, b);
    }
    if key_le(a, b) && key_le(b, c) {
        lex_le_transitive(key_bytes(a), key_bytes(b), key_bytes(c));
    }
}

/// The first position at or after `from` where `a` and `b` differ or one of
/// them ends.
spec fn first_difference(a: Seq<u8>, b: Seq<u8>, from: int) -> int
    decreases a.len() - from,
{
    if 0 <= from < a.len() && from < b.len() && a[from] == b[from] {
        first_difference(a, b, from + 1)
    } else {
        from
    }
}

proof fn first_difference_agrees(a: Seq<u8>, b: Seq<u8>, from: int)
    requires
        agree_below(a, b, from),
    ensures
        agree_below(a, b, first_difference(a, b, from)),
        ({
            let k = first_difference(a, b, from);
            k == a.len() || k == b.len() || a[k] != b[k]
        }),
    decreases a.len() - from,
{
    if from < a.len() && from < b.len() && a[from] == b[from] {
        first_difference_agrees(a, b, from + 1);
    }
}

/// Compares two byte strings.
pub fn bytes_le(a: &[u8], b: &[u8]) -> (r: bool)
    ensures
        r == lex_le(a@, b@),
{
    let mut i: usize = 0;
    while i < a.len() && i < b.len()
        invariant
            agree_below(a@, b@, i as int),
        decreases a.len() - i,
    {
        if a[i] != b[i] {
            return a[i] < b[i];
        }
        i += 1;
    }
    a.len() <= b.len()
}

/// Compares two keys by their bytes.
pub fn key_precedes(a: &str, b: &str) -> (r: bool)
    ensures
        r == key_le(a@, b@),
{
    bytes_le(a.as_bytes(), b.as_bytes())
}

} // verus!

//! The pack index: which manifests a profile owns, in sorted order.
//!
//! A profile's manifests are the objects directly under `/{profile}/` whose
//! key ends in `.json`.  The store is asked for that prefix with `/` as the
//! grouping delimiter and answers in pages; the index keeps the manifest keys
//! of all pages and sorts them by their bytes, ascending.  That order is the
//! order in which the manifests are later merged.

use vstd::prelude::*;
use vstd::multiset::Multiset;
use vstd::seq_lib::*;
use vstd::string::*;
use vstd::utf8::{
    decode_utf8, decode_utf8_split, encode_utf8_decode_utf8, encode_utf8_valid_utf8,
    is_ascii_chars, is_ascii_chars_encode_utf8, is_char_boundary_iff_not_is_continuation_byte,
    is_continuation_byte,
};
use crate::byte_order::{key_bytes, key_le, key_le_is_total_order, key_precedes};

verus! {

/// The index of one profile, as it is handed to clients.
#[derive(Clone, Debug, PartialEq, Eq)]
pub struct Index {
    /// Keys of the profile's manifests, sorted.
    pub packs: Vec<String>,
    /// The homeserver that clients are referred to.
    pub homeserver_url: String,
}

/// What an [`Index`] holds.
pub struct IndexView {
    pub packs: Seq<Seq<char>>,
    pub homeserver_url: Seq<char>,
}

impl View for Index {
    type V = IndexView;

    open spec fn view(&self) -> IndexView {
        IndexView { packs: self.packs.deep_view(), homeserver_url: self.homeserver_url@ }
    }
}

/// `bytes` ends with `suffix`.
pub open spec fn ends_with(bytes: Seq<u8>, suffix: Seq<u8>) -> bool {
    &&& suffix.len() <= bytes.len()
    &&& bytes.subrange(bytes.len() - suffix.len(), bytes.len() as int) == suffix
}

/// `text` ends with the characters `suffix`.
pub open spec fn text_ends_with(text: Seq<char>, suffix: Seq<char>) -> bool {
    &&& suffix.len() <= text.len()
    &&& text.subrange(text.len() - suffix.len(), text.len() as int) == suffix
}

/// A key names a manifest when it ends in `.json`.
pub open spec fn is_manifest_key(key: Seq<char>) -> bool {
    text_ends_with(key, ".json"@)
}

/// The manifest keys among `keys`, in the order they were listed.
pub open spec fn manifest_keys_of(keys: Seq<Seq<char>>) -> Seq<Seq<char>> {
    keys.filter(|key: Seq<char>| is_manifest_key(key))
}

/// Every key comes at or before every later one, by bytes.
pub open spec fn sorted_keys(keys: Seq<Seq<char>>) -> bool {
    forall|i: int, j: int| 0 <= i <= j < keys.len() ==> key_le(#[trigger] keys[i], #[trigger] keys[j])
}

/// The prefix under which a profile's objects are listed.
pub open spec fn prefix_of(profile: Seq<char>) -> Seq<char> {
    seq!['/'] + profile + seq!['/']
}

/// The delimiter that keeps a listing from descending into nested prefixes.
pub fn list_delimiter() -> (delimiter: String)
    ensures
        delimiter@ == seq!['/'],
{
    proof {
        reveal_strlit("/");
    }
    let delimiter = String::from_str("/");
    delimiter
}

/// The prefix to list for `profile`: the profile between two slashes.
pub fn list_prefix(profile: &str) -> (prefix: String)
    ensures
        prefix@ == prefix_of(profile@),
{
    proof {
        reveal_strlit("/");
    }
    let mut prefix = String::from_str("/");
    prefix.append(profile);
    prefix.append("/");
    prefix
}

/// Tells whether `bytes` ends with `suffix`.
pub fn bytes_end_with(bytes: &[u8], suffix: &[u8]) -> (r: bool)
    ensures
        r == ends_with(bytes@, suffix@),
{
    if suffix.len() > bytes.len() {
        return false;
    }
    let start = bytes.len() - suffix.len();
    let ghost tail = bytes@.subrange(start as int, bytes@.len() as int);
    let mut i: usize = 0;
    while i < suffix.len()
        invariant
            start + suffix.len() == bytes.len(),
            tail == bytes@.subrange(start as int, bytes@.len() as int),
            i <= suffix.len(),
            forall|j: int| 0 <= j < i ==> tail[j] == suffix@[j],
        decreases suffix.len() - i,
    {
        if bytes[start + i] != suffix[i] {
            return false;
        }
        i += 1;
    }
    assert(tail =~= suffix@);
    true
}

/// Tells whether `key` names a manifest.
pub fn names_manifest(key: &str) -> (r: bool)
    ensures
        r == is_manifest_key(key@),
{
    proof {
        json_suffix_in_bytes(key@);
    }
    bytes_end_with(key.as_bytes(), ".json".as_bytes())
}

/// Collects the manifest keys of a paged listing, page after page, each key
/// where the store listed it.
pub fn manifest_keys(pages: Vec<Vec<String>>) -> (keys: Vec<String>)
    ensures
        keys.deep_view() == manifest_keys_of(pages.deep_view().flatten()),
{
    let ghost pred = |key: Seq<char>| is_manifest_key(key);
    let ghost listed = pages.deep_view();
    let ghost all_pages = pages@;
    let mut keys: Vec<String> = Vec::new();
    for page in pages_left: pages
        invariant
            pages_left.seq() == all_pages,
            listed == Seq::new(all_pages.len(), |i: int| all_pages[i].deep_view()),
            pred == |key: Seq<char>| is_manifest_key(key),
            keys.deep_view() == listed.take(pages_left.index() as int).flatten().filter(pred),
    {
        let ghost p = pages_left.index() as int;
        let ghost before = listed.take(p).flatten();
        let ghost page_keys = page.deep_view();
        let ghost all_keys = page@;
        for key in keys_left: page
            invariant
                keys_left.seq() == all_keys,
                page_keys == Seq::new(all_keys.len(), |i: int| all_keys[i]@),
                pred == |key: Seq<char>| is_manifest_key(key),
                keys.deep_view() == (before + page_keys.take(keys_left.index() as int)).filter(pred),
        {
            let ghost q = keys_left.index() as int;
            let ghost seen = before + page_keys.take(q);
            proof {
                assert(before + page_keys.take(q + 1) =~= seen.push(key@));
                seen.lemma_filter_push(key@, pred);
            }
            if names_manifest(key.as_str()) {
                keys.push(key);
            }
        }
        proof {
            assert(page_keys.take(page_keys.len() as int) =~= page_keys);
            assert(listed.take(p + 1) =~= listed.take(p) + seq![page_keys]);
            lemma_flatten_concat(listed.take(p), seq![page_keys]);
            seq![page_keys].lemma_flatten_one_element();
        }
    }
    assert(listed.take(listed.len() as int) =~= listed);
    keys
}

/// Every key of `low` comes at or before every key of `high`.
spec fn all_le(low: Seq<Seq<char>>, high: Seq<Seq<char>>) -> bool {
    forall|i: int, j: int|
        0 <= i < low.len() && 0 <= j < high.len() ==> key_le(#[trigger] low[i], #[trigger] high[j])
}

/// Every key comes at or after every later one.
spec fn descending_keys(keys: Seq<Seq<char>>) -> bool {
    forall|i: int, j: int| 0 <= i <= j < keys.len() ==> key_le(#[trigger] keys[j], #[trigger] keys[i])
}

/// Merges two sorted runs of keys into one.
fn merge_sorted(left: Vec<String>, right: Vec<String>) -> (merged: Vec<String>)
    requires
        sorted_keys(left.deep_view()),
        sorted_keys(right.deep_view()),
    ensures
        sorted_keys(merged.deep_view()),
        merged.deep_view().to_multiset() == left.deep_view().to_multiset().add(
            right.deep_view().to_multiset(),
        ),
{
    let ghost total = left.deep_view().to_multiset().add(right.deep_view().to_multiset());
    let mut left = left;
    let mut right = right;
    // The largest keys of both runs, the largest first.
    let mut taken: Vec<String> = Vec::new();
    proof {
        assert(taken.deep_view().to_multiset() =~= Multiset::empty()) by {
            to_multiset_len(taken.deep_view());
        }
    }
    while left.len() > 0 && right.len() > 0
        invariant
            sorted_keys(left.deep_view()),
            sorted_keys(right.deep_view()),
            descending_keys(taken.deep_view()),
            all_le(left.deep_view(), taken.deep_view()),
            all_le(right.deep_view(), taken.deep_view()),
            taken.deep_view().to_multiset().add(left.deep_view().to_multiset()).add(
                right.deep_view().to_multiset(),
            ) == total,
        decreases left.len() + right.len(),
    {
        let ghost l = left.deep_view();
        let ghost r = right.deep_view();
        let ghost t = taken.deep_view();
        let from_right = key_precedes(
            left[left.len() - 1].as_str(),
            right[right.len() - 1].as_str(),
        );
        let key = if from_right {
            right.pop().unwrap()
        } else {
            left.pop().unwrap()
        };
        taken.push(key);
        proof {
            let x = key@;
            let (kept, cut) = if from_right {
                (l, r)
            } else {
                (r, l)
            };
            let rest = cut.drop_last();
            assert(taken.deep_view() =~= t.push(x));
            assert(cut.last() == x);
            assert(cut =~= rest.push(x));
            if from_right {
                assert(right.deep_view() =~= rest);
            } else {
                assert(left.deep_view() =~= rest);
                key_le_is_total_order(l.last(), r.last(), l.last());
            }
            assert forall|i: int| 0 <= i < kept.len() implies key_le(#[trigger] kept[i], x) by {
                key_le_is_total_order(kept[i], kept.last(), x);
            }
            key_le_is_total_order(x, x, x);
            to_multiset_build(t, x);
            to_multiset_build(rest, x);
        }
    }
    proof {
        to_multiset_len(left.deep_view());
        to_multiset_len(right.deep_view());
    }
    let mut merged = if left.len() > 0 {
        left
    } else {
        right
    };
    while taken.len() > 0
        invariant
            sorted_keys(merged.deep_view()),
            descending_keys(taken.deep_view()),
            all_le(merged.deep_view(), taken.deep_view()),
            merged.deep_view().to_multiset().add(taken.deep_view().to_multiset()) == total,
        decreases taken.len(),
    {
        let ghost m = merged.deep_view();
        let ghost t = taken.deep_view();
        let key = taken.pop().unwrap();
        merged.push(key);
        proof {
            let x = key@;
            let rest = t.drop_last();
            assert(taken.deep_view() =~= rest);
            assert(merged.deep_view() =~= m.push(x));
            assert(t.last() == x);
            assert(t =~= rest.push(x));
            key_le_is_total_order(x, x, x);
            to_multiset_build(m, x);
            to_multiset_build(rest, x);
        }
    }
    proof {
        to_multiset_len(taken.deep_view());
    }
    merged
}

/// Sorts keys ascending by their bytes.
pub fn sort_keys(keys: Vec<String>) -> (sorted: Vec<String>)
    ensures
        sorted_keys(sorted.deep_view()),
        sorted.deep_view().to_multiset() == keys.deep_view().to_multiset(),
    decreases keys.len(),
{
    if keys.len() < 2 {
        proof {
            if keys.len() == 1 {
                let only = keys.deep_view()[0];
                key_le_is_total_order(only, only, only);
            }
        }
        return keys;
    }
    let ghost all = keys.deep_view();
    let mut left = keys;
    let right = left.split_off(left.len() / 2);
    proof {
        assert(left.deep_view() + right.deep_view() =~= all);
        lemma_multiset_commutative(left.deep_view(), right.deep_view());
    }
    merge_sorted(sort_keys(left), sort_keys(right))
}

/// Builds a profile's index from the pages of its listing: the manifest
/// keys, each as often as the store listed it, sorted by bytes.
pub fn build_index(pages: Vec<Vec<String>>, homeserver_url: String) -> (index: Index)
    ensures
        index@.homeserver_url == homeserver_url@,
        sorted_keys(index@.packs),
        index@.packs.to_multiset() == manifest_keys_of(pages.deep_view().flatten()).to_multiset(),
{
    let packs = sort_keys(manifest_keys(pages));
    Index { packs, homeserver_url }
}

/// The bytes of two texts in a row are the bytes of the first, then those of
/// the second.
pub proof fn key_bytes_in_a_row(a: Seq<char>, b: Seq<char>)
    ensures
        key_bytes(a + b) == key_bytes(a) + key_bytes(b),
    decreases a.len(),
{
    if a.len() > 0 {
        assert((a + b).drop_first() =~= a.drop_first() + b);
        key_bytes_in_a_row(a.drop_first(), b);
    }
}

/// A key ends in the characters `.json` exactly if its bytes end in the
/// bytes of `.json`.
pub proof fn json_suffix_in_bytes(key: Seq<char>)
    ensures
        is_manifest_key(key) <==> ends_with(key_bytes(key), key_bytes(".json"@)),
{
    reveal_strlit(".json");
    let suffix = ".json"@;
    let tail = key_bytes(suffix);
    let bytes = key_bytes(key);
    assert(is_ascii_chars(suffix));
    is_ascii_chars_encode_utf8(suffix);
    if text_ends_with(key, suffix) {
        let front = key.subrange(0, key.len() - suffix.len());
        assert(key =~= front + suffix);
        key_bytes_in_a_row(front, suffix);
        assert(bytes.subrange(bytes.len() - tail.len(), bytes.len() as int) =~= tail);
    }
    if ends_with(bytes, tail) {
        let at = bytes.len() - tail.len();
        encode_utf8_valid_utf8(key);
        assert(bytes[at] == bytes.subrange(at, bytes.len() as int)[0]);
        assert(tail[0] == suffix[0] as u8);
        assert(!is_continuation_byte(bytes[at]));
        is_char_boundary_iff_not_is_continuation_byte(bytes, at);
        decode_utf8_split(bytes, at);
        encode_utf8_decode_utf8(key);
        encode_utf8_decode_utf8(suffix);
        let front = decode_utf8(bytes.subrange(0, at));
        assert(key =~= front + suffix);
        assert(key.subrange(key.len() - suffix.len(), key.len() as int) =~= suffix);
    }
}

/// Sorted keys are determined by which keys they are and how often each
/// occurs: two sorted sequences of the same keys are the same sequence.
pub proof fn sorted_keys_are_determined(a: Seq<Seq<char>>, b: Seq<Seq<char>>)
    requires
        sorted_keys(a),
        sorted_keys(b),
        a.to_multiset() == b.to_multiset(),
    ensures
        a == b,
    decreases a.len(),
{
    to_multiset_len(a);
    to_multiset_len(b);
    if a.len() > 0 {
        let x = a.last();
        let y = b.last();
        assert(a.contains(x)) by {
            assert(a[a.len() - 1] == x);
        }
        to_multiset_contains(a, x);
        to_multiset_contains(b, x);
        let i = choose|i: int| 0 <= i < b.len() && b[i] == x;
        assert(key_le(b[i], b[b.len() - 1]));
        assert(b.contains(y)) by {
            assert(b[b.len() - 1] == y);
        }
        to_multiset_contains(b, y);
        to_multiset_contains(a, y);
        let j = choose|j: int| 0 <= j < a.len() && a[j] == y;
        assert(key_le(a[j], a[a.len() - 1]));
        key_le_is_total_order(x, y, x);
        assert(x == y);
        let front_a = a.drop_last();
        let front_b = b.drop_last();
        assert(a =~= front_a.push(x));
        assert(b =~= front_b.push(y));
        to_multiset_build(front_a, x);
        to_multiset_build(front_b, y);
        assert(front_a.to_multiset() =~= a.to_multiset().remove(x));
        assert(front_b.to_multiset() =~= b.to_multiset().remove(y));
        assert forall|i: int, j: int| 0 <= i <= j < front_a.len() implies key_le(
            #[trigger] front_a[i],
            #[trigger] front_a[j],
        ) by {
            assert(key_le(a[i], a[j]));
        }
        assert forall|i: int, j: int| 0 <= i <= j < front_b.len() implies key_le(
            #[trigger] front_b[i],
            #[trigger] front_b[j],
        ) by {
            assert(key_le(b[i], b[j]));
        }
        sorted_keys_are_determined(front_a, front_b);
    }
}

} // verus!

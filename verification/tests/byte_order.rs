use sticker_packs::byte_order::{bytes_le, key_precedes};

#[test]
fn equal_bytes_precede_each_other() {
    assert!(bytes_le(b"", b""));
    assert!(bytes_le(b"pack", b"pack"));
}

#[test]
fn a_prefix_precedes_its_extensions() {
    assert!(bytes_le(b"", b"a"));
    assert!(bytes_le(b"pack", b"packs"));
    assert!(!bytes_le(b"packs", b"pack"));
    assert!(!bytes_le(b"a", b""));
}

#[test]
fn the_first_differing_byte_decides() {
    assert!(bytes_le(b"abc", b"abd"));
    assert!(!bytes_le(b"abd", b"abc"));
    assert!(bytes_le(b"abz", b"b"));
    assert!(!bytes_le(b"b", b"abz"));
    assert!(bytes_le(&[0x00, 0xff], &[0x01]));
    assert!(!bytes_le(&[0xff], &[0x7f, 0xff]));
}

#[test]
fn keys_compare_by_bytes_not_by_letters() {
    assert!(key_precedes("Zebra", "apple"));
    assert!(!key_precedes("apple", "Zebra"));
    assert!(key_precedes("a10", "a9"));
    assert!(key_precedes("z", "é"));
    assert!(!key_precedes("é", "z"));
}

#[test]
fn key_order_agrees_with_the_order_of_strings() {
    let keys = ["", "a", "A", "ab", "b", "/x/1.json", "/x/10.json", "/x/2.json", "ß", "日本"];
    for a in keys.iter() {
        for b in keys.iter() {
            assert_eq!(key_precedes(a, b), a <= b);
        }
    }
}

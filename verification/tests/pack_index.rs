use sticker_packs::pack_index::{
    build_index, bytes_end_with, list_delimiter, list_prefix, manifest_keys, names_manifest,
    sort_keys,
};

fn keys(names: &[&str]) -> Vec<String> {
    names.iter().map(|name| name.to_string()).collect()
}

#[test]
fn prefix_wraps_the_profile_in_slashes() {
    assert_eq!(list_prefix("alice"), "/alice/");
    assert_eq!(list_prefix(""), "//");
    assert_eq!(list_prefix("ünï"), "/ünï/");
}

#[test]
fn listing_is_delimited_by_a_slash() {
    assert_eq!(list_delimiter(), "/");
}

#[test]
fn suffix_test_compares_the_last_bytes() {
    assert!(bytes_end_with(b"cats.json", b".json"));
    assert!(bytes_end_with(b"cats.json", b""));
    assert!(bytes_end_with(b"", b""));
    assert!(!bytes_end_with(b"", b"x"));
    assert!(!bytes_end_with(b"son", b".json"));
    assert!(!bytes_end_with(b"cats.jsom", b".json"));
    assert!(!bytes_end_with(b"cats.json ", b".json"));
}

#[test]
fn only_json_keys_name_manifests() {
    assert!(names_manifest("/alice/cats.json"));
    assert!(names_manifest(".json"));
    assert!(!names_manifest("/alice/cats.png"));
    assert!(!names_manifest("json"));
    assert!(!names_manifest("/alice/cats.json/"));
    assert!(!names_manifest("/alice/cats.JSON"));
    assert!(!names_manifest(""));
}

#[test]
fn manifest_keys_keep_the_listing_order() {
    let pages = vec![
        keys(&["/alice/zebra.json", "/alice/thumb.png"]),
        keys(&["/alice/apple.json", "/alice/zebra.json"]),
    ];
    assert_eq!(
        manifest_keys(pages),
        keys(&["/alice/zebra.json", "/alice/apple.json", "/alice/zebra.json"])
    );
}

#[test]
fn sorting_orders_by_bytes_and_keeps_repetitions() {
    let sorted = sort_keys(keys(&["b", "a", "B", "ab", "a", "", "é", "z"]));
    assert_eq!(sorted, keys(&["", "B", "a", "a", "ab", "b", "z", "é"]));
    assert_eq!(sort_keys(Vec::new()), Vec::<String>::new());
    assert_eq!(sort_keys(keys(&["only"])), keys(&["only"]));
}

#[test]
fn sorting_agrees_with_the_order_of_strings() {
    let listed = keys(&["/p/9.json", "/p/10.json", "/p/a.json", "/p/B.json", "/p/_.json", "/p/1.json"]);
    let mut expected = listed.clone();
    expected.sort_unstable();
    assert_eq!(sort_keys(listed), expected);
}

#[test]
fn sorting_many_keys_agrees_with_the_order_of_strings() {
    let mut state: u32 = 12345;
    let mut listed = Vec::new();
    for _ in 0..257 {
        state = state.wrapping_mul(1103515245).wrapping_add(12345);
        let length = (state >> 16) % 7;
        let mut key = String::from("/p/");
        for _ in 0..length {
            state = state.wrapping_mul(1103515245).wrapping_add(12345);
            key.push(char::from(b'a' + ((state >> 16) % 4) as u8));
        }
        listed.push(key);
    }
    let mut expected = listed.clone();
    expected.sort_unstable();
    assert_eq!(sort_keys(listed), expected);
}

#[test]
fn index_is_sorted_and_keeps_only_manifests() {
    let pages = vec![
        keys(&["/alice/zebra.json", "/alice/thumb.png", "/alice/apple.json"]),
        keys(&[]),
        keys(&["/alice/Mango.json", "/alice/apple.json.bak"]),
    ];
    let index = build_index(pages, "https://example.org".to_string());
    assert_eq!(
        index.packs,
        keys(&["/alice/Mango.json", "/alice/apple.json", "/alice/zebra.json"])
    );
    assert_eq!(index.homeserver_url, "https://example.org");
}

#[test]
fn index_output_never_decreases() {
    let pages = vec![
        keys(&["/p/m.json", "/p/c.json", "/p/x.json", "/p/a.txt"]),
        keys(&["/p/b.json", "/p/y.json", "/p/a.json"]),
    ];
    let index = build_index(pages, String::new());
    assert_eq!(index.packs.len(), 6);
    for pair in index.packs.windows(2) {
        assert!(pair[0].as_bytes() <= pair[1].as_bytes());
    }
    for key in index.packs.iter() {
        assert!(key.ends_with(".json"));
    }
}

#[test]
fn index_of_an_empty_listing_is_empty() {
    let index = build_index(Vec::new(), "hs".to_string());
    assert!(index.packs.is_empty());
    let index = build_index(vec![keys(&["/p/readme.txt"]), keys(&[])], "hs".to_string());
    assert!(index.packs.is_empty());
    assert_eq!(index.homeserver_url, "hs");
}

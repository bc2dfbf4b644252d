use sticker_packs::proxy::{content_type, media_type_of, object_key, response_status};

fn parts(segments: &[&str]) -> Vec<String> {
    segments.iter().map(|segment| segment.to_string()).collect()
}

#[test]
fn object_key_joins_segments_with_slashes() {
    assert_eq!(object_key(&parts(&["alice", "packs", "cats", "1.png"])), "alice/packs/cats/1.png");
    assert_eq!(object_key(&parts(&["alice"])), "alice");
    assert_eq!(object_key(&parts(&[])), "");
    assert_eq!(object_key(&parts(&["", ""])), "/");
    assert_eq!(object_key(&parts(&["a", "", "b"])), "a//b");
}

#[test]
fn object_key_agrees_with_join() {
    let segments = parts(&["ünï", "packs", "日本.json"]);
    assert_eq!(object_key(&segments), segments.join("/"));
}

#[test]
fn store_status_is_passed_through_where_it_is_a_status() {
    assert_eq!(response_status(200), 200);
    assert_eq!(response_status(404), 404);
    assert_eq!(response_status(100), 100);
    assert_eq!(response_status(999), 999);
}

#[test]
fn other_numbers_become_a_server_error() {
    assert_eq!(response_status(0), 500);
    assert_eq!(response_status(99), 500);
    assert_eq!(response_status(1000), 500);
    assert_eq!(response_status(u16::MAX), 500);
}

#[test]
fn media_type_is_the_first_guess() {
    assert_eq!(media_type_of(&mime_guess::from_ext("png")), "image/png");
    assert_eq!(media_type_of(&mime_guess::from_ext("json")), "application/json");
}

#[test]
fn media_type_of_an_empty_guess_is_octet_stream() {
    assert_eq!(media_type_of(&mime_guess::from_ext("")), "application/octet-stream");
    assert_eq!(
        media_type_of(&mime_guess::from_ext("no-such-extension")),
        "application/octet-stream"
    );
}

#[test]
fn content_type_goes_by_the_extension() {
    assert_eq!(content_type("alice/packs/cats/1.png"), "image/png");
    assert_eq!(content_type("alice/packs/cats.json"), "application/json");
    assert_eq!(content_type("alice/packs/cats"), "application/octet-stream");
    assert_eq!(content_type(""), "application/octet-stream");
}

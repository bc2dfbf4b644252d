use sticker_packs::aggregate::{begin, AggregateError, Fetched, Progress};
use sticker_packs::catalog::{Catalog, ImageInfo, Sticker, StickerPack};
use sticker_packs::pack_index::{build_index, Index};

fn sticker(id: &str, body: &str) -> Sticker {
    Sticker {
        id: id.to_string(),
        body: body.to_string(),
        url: format!("mxc://example.org/{id}"),
        info: ImageInfo { w: 64, h: 64, size: 512, mimetype: "image/webp".to_string() },
    }
}

fn pack(stickers: Vec<Sticker>) -> Fetched {
    Fetched::Manifest(StickerPack { stickers })
}

fn index(keys: &[&str]) -> Option<Index> {
    Some(Index {
        packs: keys.iter().map(|key| key.to_string()).collect(),
        homeserver_url: "https://example.org".to_string(),
    })
}

/// Feeds the replies in order; says which keys were asked for and how the
/// aggregation ended.
fn drive(index: Option<Index>, replies: Vec<Fetched>) -> (Vec<String>, Result<Catalog, AggregateError>) {
    let mut asked = Vec::new();
    let mut replies = replies.into_iter();
    let mut progress = begin(index);
    loop {
        match progress {
            Progress::Fetch(pending) => {
                asked.push(pending.key().clone());
                let reply = replies.next().unwrap();
                progress = pending.resume(reply);
            }
            Progress::Done(catalog) => return (asked, Ok(catalog)),
            Progress::Failed(error) => return (asked, Err(error)),
        }
    }
}

fn bodies(catalog: &Catalog) -> Vec<(String, String)> {
    let mut out = Vec::new();
    let mut i = 0;
    while let Some((id, image)) = catalog.get_index(i) {
        out.push((id.clone(), image.body.clone()));
        i += 1;
    }
    out
}

fn pair(id: &str, body: &str) -> (String, String) {
    (id.to_string(), body.to_string())
}

#[test]
fn empty_profile_success() {
    let (asked, result) = drive(index(&[]), Vec::new());
    assert!(asked.is_empty());
    let catalog = result.unwrap();
    assert_eq!(catalog.len(), 0);
    assert_eq!(catalog.pack().display_name, "Sticker Pack");
}

#[test]
fn empty_listing_gives_an_empty_catalog() {
    let listed = build_index(vec![vec!["/p/notes.txt".to_string()]], "hs".to_string());
    let (asked, result) = drive(Some(listed), Vec::new());
    assert!(asked.is_empty());
    assert_eq!(result.unwrap().len(), 0);
}

#[test]
fn failed_listing_fails_the_aggregation() {
    let (asked, result) = drive(None, Vec::new());
    assert!(asked.is_empty());
    assert_eq!(result.unwrap_err(), AggregateError::StoreList);
}

#[test]
fn manifests_are_asked_for_in_index_order_and_merged() {
    let replies = vec![
        pack(vec![sticker("A", "a1"), sticker("B", "b1")]),
        pack(vec![]),
        pack(vec![sticker("B", "b3"), sticker("C", "c3")]),
    ];
    let (asked, result) = drive(index(&["/p/1.json", "/p/2.json", "/p/3.json"]), replies);
    assert_eq!(asked, vec!["/p/1.json", "/p/2.json", "/p/3.json"]);
    let catalog = result.unwrap();
    assert_eq!(bodies(&catalog), vec![pair("A", "a1"), pair("B", "b3"), pair("C", "c3")]);
    assert_eq!(catalog.pack().display_name, "Sticker Pack");
}

#[test]
fn later_keys_win_on_value_and_earlier_keys_on_position() {
    let listed = build_index(
        vec![vec!["/p/b.json".to_string(), "/p/a.json".to_string()]],
        "hs".to_string(),
    );
    let replies = vec![
        pack(vec![sticker("shared", "from a"), sticker("only-a", "a")]),
        pack(vec![sticker("only-b", "b"), sticker("shared", "from b")]),
    ];
    let (asked, result) = drive(Some(listed), replies);
    assert_eq!(asked, vec!["/p/a.json", "/p/b.json"]);
    assert_eq!(
        bodies(&result.unwrap()),
        vec![pair("shared", "from b"), pair("only-a", "a"), pair("only-b", "b")]
    );
}

#[test]
fn fetch_parse_failure_isolation() {
    let replies = vec![pack(vec![sticker("A", "a"), sticker("B", "b")]), Fetched::ParseFailed];
    let (asked, result) = drive(index(&["/p/m1.json", "/p/m2.json"]), replies);
    assert_eq!(asked, vec!["/p/m1.json", "/p/m2.json"]);
    assert_eq!(
        result.unwrap_err(),
        AggregateError::ManifestParse { key: "/p/m2.json".to_string() }
    );
}

#[test]
fn fetch_failure_aborts_under_the_failing_key() {
    let replies = vec![pack(vec![sticker("A", "a")]), Fetched::FetchFailed];
    let (asked, result) = drive(index(&["/p/m1.json", "/p/m2.json", "/p/m3.json"]), replies);
    assert_eq!(asked, vec!["/p/m1.json", "/p/m2.json"]);
    assert_eq!(
        result.unwrap_err(),
        AggregateError::StoreFetch { key: "/p/m2.json".to_string() }
    );
}

#[test]
fn first_manifest_failing_ends_at_once() {
    let (asked, result) = drive(index(&["/p/m1.json", "/p/m2.json"]), vec![Fetched::ParseFailed]);
    assert_eq!(asked, vec!["/p/m1.json"]);
    assert!(matches!(result, Err(AggregateError::ManifestParse { .. })));
    let (asked, result) = drive(index(&["/p/only.json"]), vec![Fetched::FetchFailed]);
    assert_eq!(asked, vec!["/p/only.json"]);
    assert_eq!(
        result.unwrap_err(),
        AggregateError::StoreFetch { key: "/p/only.json".to_string() }
    );
}

#[test]
fn last_manifest_ends_the_aggregation() {
    let progress = begin(index(&["/p/only.json"]));
    let pending = match progress {
        Progress::Fetch(pending) => pending,
        _ => panic!("a manifest is to be fetched"),
    };
    assert_eq!(pending.key(), "/p/only.json");
    match pending.resume(pack(vec![sticker("A", "a")])) {
        Progress::Done(catalog) => assert_eq!(bodies(&catalog), vec![pair("A", "a")]),
        _ => panic!("the aggregation is done"),
    }
}

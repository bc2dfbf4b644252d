use sticker_packs::catalog::{sticker_image, Catalog, Image, ImageInfo, Sticker, StickerPack};

fn sticker(id: &str, body: &str, size: usize) -> Sticker {
    Sticker {
        id: id.to_string(),
        body: body.to_string(),
        url: format!("mxc://example.org/{body}"),
        info: ImageInfo { w: 256, h: 128, size, mimetype: "image/png".to_string() },
    }
}

fn entries(catalog: &Catalog) -> Vec<(String, Image)> {
    let mut out = Vec::new();
    let mut i = 0;
    while let Some((id, image)) = catalog.get_index(i) {
        out.push((id.clone(), image.clone()));
        i += 1;
    }
    assert_eq!(i, catalog.len());
    out
}

fn ids(catalog: &Catalog) -> Vec<String> {
    entries(catalog).into_iter().map(|(id, _)| id).collect()
}

#[test]
fn new_catalog_is_empty_under_the_default_name() {
    let catalog = Catalog::new();
    assert_eq!(catalog.len(), 0);
    assert!(catalog.get_index(0).is_none());
    assert_eq!(catalog.pack().display_name, "Sticker Pack");
}

#[test]
fn image_takes_the_sticker_fields_and_the_sticker_tag() {
    let (id, image) = sticker_image(sticker("tg-1", "wave", 4096));
    assert_eq!(id, "tg-1");
    assert_eq!(image.body, "wave");
    assert_eq!(image.url, "mxc://example.org/wave");
    assert_eq!(
        image.info,
        ImageInfo { w: 256, h: 128, size: 4096, mimetype: "image/png".to_string() }
    );
    assert_eq!(image.usage, vec!["sticker".to_string()]);
}

#[test]
fn inserting_new_ids_appends_in_order() {
    let catalog = Catalog::new()
        .with_sticker(sticker("b", "second letter", 1))
        .with_sticker(sticker("a", "first letter", 2))
        .with_sticker(sticker("c", "third letter", 3));
    assert_eq!(catalog.len(), 3);
    assert_eq!(ids(&catalog), vec!["b", "a", "c"]);
    let (id, image) = catalog.get_index(1).unwrap();
    assert_eq!(id, "a");
    assert_eq!(image.body, "first letter");
    assert_eq!(image.info.size, 2);
    assert!(catalog.get_index(3).is_none());
}

#[test]
fn inserting_a_held_id_replaces_the_image_in_place() {
    let catalog = Catalog::new()
        .with_sticker(sticker("a", "old a", 1))
        .with_sticker(sticker("b", "old b", 2))
        .with_sticker(sticker("a", "new a", 3));
    assert_eq!(catalog.len(), 2);
    let held = entries(&catalog);
    assert_eq!(held[0].0, "a");
    assert_eq!(held[0].1.body, "new a");
    assert_eq!(held[0].1.info.size, 3);
    assert_eq!(held[0].1.url, "mxc://example.org/new a");
    assert_eq!(held[1].0, "b");
    assert_eq!(held[1].1.body, "old b");
}

#[test]
fn merge_order_stability() {
    let m1 = StickerPack { stickers: vec![sticker("A", "a of m1", 1), sticker("B", "b of m1", 2)] };
    let m2 = StickerPack { stickers: vec![sticker("B", "b of m2", 3), sticker("C", "c of m2", 4)] };
    let catalog = Catalog::new().with_pack(m1).with_pack(m2);
    let held = entries(&catalog);
    assert_eq!(held.len(), 3);
    assert_eq!(held[0].0, "A");
    assert_eq!(held[1].0, "B");
    assert_eq!(held[2].0, "C");
    assert_eq!(held[0].1, sticker_image(sticker("A", "a of m1", 1)).1);
    assert_eq!(held[1].1, sticker_image(sticker("B", "b of m2", 3)).1);
    assert_eq!(held[2].1, sticker_image(sticker("C", "c of m2", 4)).1);
    assert_eq!(catalog.pack().display_name, "Sticker Pack");
}

#[test]
fn merging_a_pack_with_repeated_ids_keeps_the_last_image() {
    let pack = StickerPack {
        stickers: vec![
            sticker("x", "first", 1),
            sticker("y", "only", 2),
            sticker("x", "second", 3),
            sticker("x", "third", 4),
        ],
    };
    let catalog = Catalog::new().with_pack(pack);
    let held = entries(&catalog);
    assert_eq!(held.len(), 2);
    assert_eq!(held[0].0, "x");
    assert_eq!(held[0].1.body, "third");
    assert_eq!(held[1].0, "y");
    assert_eq!(held[1].1.body, "only");
}

#[test]
fn merging_an_empty_pack_changes_nothing() {
    let catalog = Catalog::new()
        .with_sticker(sticker("a", "kept", 1))
        .with_pack(StickerPack { stickers: Vec::new() });
    assert_eq!(ids(&catalog), vec!["a"]);
    assert_eq!(catalog.get_index(0).unwrap().1.body, "kept");
}

#[test]
fn every_image_carries_the_sticker_tag_alone() {
    let catalog = Catalog::new().with_pack(StickerPack {
        stickers: vec![sticker("a", "a", 1), sticker("b", "b", 2), sticker("a", "a2", 3)],
    });
    for (_, image) in entries(&catalog) {
        assert_eq!(image.usage, vec!["sticker".to_string()]);
    }
}

//! The emote catalog: stickers keyed by their external id, in the order in
//! which the ids were first seen.
//!
//! The catalog keeps its images in an [`IndexMap`].  Inserting under an id
//! that is already present replaces the stored image and leaves the entry
//! where it is; a new id goes to the end.

use vstd::prelude::*;
use vstd::string::*;
use indexmap::IndexMap;

verus! {

/// Size and type of a sticker's image.
#[derive(Clone, Debug, PartialEq, Eq)]
pub struct ImageInfo {
    pub w: usize,
    pub h: usize,
    pub size: usize,
    pub mimetype: String,
}

/// What an [`ImageInfo`] holds.
pub struct ImageInfoView {
    pub w: nat,
    pub h: nat,
    pub size: nat,
    pub mimetype: Seq<char>,
}

impl View for ImageInfo {
    type V = ImageInfoView;

    open spec fn view(&self) -> ImageInfoView {
        ImageInfoView {
            w: self.w as nat,
            h: self.h as nat,
            size: self.size as nat,
            mimetype: self.mimetype@,
        }
    }
}

/// One sticker of a manifest.
#[derive(Clone, Debug, PartialEq, Eq)]
pub struct Sticker {
    /// The id the source gave the sticker; two stickers with one id are the
    /// same emote.
    pub id: String,
    /// Display label.
    pub body: String,
    /// Where the image is found.
    pub url: String,
    pub info: ImageInfo,
}

/// What a [`Sticker`] holds.
pub struct StickerView {
    pub id: Seq<char>,
    pub body: Seq<char>,
    pub url: Seq<char>,
    pub info: ImageInfoView,
}

impl View for Sticker {
    type V = StickerView;

    open spec fn view(&self) -> StickerView {
        StickerView { id: self.id@, body: self.body@, url: self.url@, info: self.info@ }
    }
}

/// A parsed manifest: the stickers of one pack, in document order.
#[derive(Clone, Debug, PartialEq, Eq)]
pub struct StickerPack {
    pub stickers: Vec<Sticker>,
}

impl View for StickerPack {
    type V = Seq<StickerView>;

    open spec fn view(&self) -> Seq<StickerView> {
        Seq::new(self.stickers@.len(), |i: int| self.stickers@[i]@)
    }
}

/// A catalog entry's value.
#[derive(Clone, Debug, PartialEq, Eq)]
pub struct Image {
    pub body: String,
    pub info: ImageInfo,
    pub url: String,
    pub usage: Vec<String>,
}

/// What an [`Image`] holds.
pub struct ImageView {
    pub body: Seq<char>,
    pub info: ImageInfoView,
    pub url: Seq<char>,
    pub usage: Seq<Seq<char>>,
}

impl View for Image {
    type V = ImageView;

    open spec fn view(&self) -> ImageView {
        ImageView {
            body: self.body@,
            info: self.info@,
            url: self.url@,
            usage: self.usage.deep_view(),
        }
    }
}

/// Display metadata of a catalog.
#[derive(Clone, Debug, PartialEq, Eq)]
pub struct Pack {
    pub display_name: String,
}

/// A catalog's entries in order, each an id with its image.
pub type Entries = Seq<(Seq<char>, ImageView)>;

/// The name every catalog is displayed under.
pub open spec fn default_display_name() -> Seq<char> {
    "Sticker Pack"@
}

/// The usage tags of every catalog image: the single tag `sticker`.
pub open spec fn sticker_usage() -> Seq<Seq<char>> {
    seq!["sticker"@]
}

/// The image a sticker is stored as.
pub open spec fn image_of(sticker: StickerView) -> ImageView {
    ImageView {
        body: sticker.body,
        info: sticker.info,
        url: sticker.url,
        usage: sticker_usage(),
    }
}

/// `id` is the key of some entry.
pub open spec fn has_id(entries: Entries, id: Seq<char>) -> bool {
    exists|i: int| 0 <= i < entries.len() && (#[trigger] entries[i]).0 == id
}

/// The position of the first entry under `id`; the number of entries where
/// there is none.
pub open spec fn position_of(entries: Entries, id: Seq<char>) -> int
    decreases entries.len(),
{
    if entries.len() == 0 {
        0
    } else if entries[0].0 == id {
        0
    } else {
        1 + position_of(entries.drop_first(), id)
    }
}

/// No id is the key of two entries.
pub open spec fn distinct_ids(entries: Entries) -> bool {
    forall|i: int, j: int|
        0 <= i < j < entries.len() ==> (#[trigger] entries[i]).0 != (#[trigger] entries[j]).0
}

/// Every image carries the usage tags of a sticker.
pub open spec fn tagged_as_stickers(entries: Entries) -> bool {
    forall|i: int| 0 <= i < entries.len() ==> (#[trigger] entries[i]).1.usage == sticker_usage()
}

/// `entries` after `image` is stored under `id`: in place of the entry that
/// `id` already has, else as a new last entry.
pub open spec fn upsert(entries: Entries, id: Seq<char>, image: ImageView) -> Entries {
    let at = position_of(entries, id);
    if at < entries.len() {
        entries.update(at, (id, image))
    } else {
        entries.push((id, image))
    }
}

/// `entries` after the stickers are stored one by one, first to last.
pub open spec fn merge_stickers(entries: Entries, stickers: Seq<StickerView>) -> Entries
    decreases stickers.len(),
{
    if stickers.len() == 0 {
        entries
    } else {
        let last = stickers.last();
        upsert(merge_stickers(entries, stickers.drop_last()), last.id, image_of(last))
    }
}

/// `indexmap::IndexMap`, a hash map that keeps its entries in the order in
/// which their keys were first inserted.  Nothing of its inside is known
/// here but what [`image_entries`] names.
#[verifier::external_type_specification]
#[verifier::external_body]
#[verifier::reject_recursive_types(K)]
#[verifier::reject_recursive_types(V)]
#[verifier::reject_recursive_types(S)]
pub struct ExIndexMap<K, V, S>(IndexMap<K, V, S>);

/// The entries of an image map, in the map's own order: what iterating the
/// map or asking for its positions one by one gives.
pub uninterp spec fn image_entries(map: IndexMap<String, Image>) -> Entries;

/// `IndexMap::new`: the map it returns has no entries.
#[verifier::external_body]
fn images_new() -> (map: IndexMap<String, Image>)
    ensures
        image_entries(map) == Seq::<(Seq<char>, ImageView)>::empty(),
{
    IndexMap::new()
}

/// `IndexMap::insert`: where the key is present its value is replaced and
/// the entry keeps its place; else the pair becomes the last entry.  No other
/// entry changes.
#[verifier::external_body]
fn images_insert(map: &mut IndexMap<String, Image>, id: String, image: Image)
    ensures
        image_entries(*final(map)) == upsert(image_entries(*old(map)), id@, image@),
{
    map.insert(id, image);
}

/// `IndexMap::len`: the number of entries.
#[verifier::external_body]
fn images_len(map: &IndexMap<String, Image>) -> (n: usize)
    ensures
        n == image_entries(*map).len(),
{
    map.len()
}

/// `IndexMap::get_index`: the entry at a position of the map's order, and
/// nothing at or past the number of entries.
#[verifier::external_body]
fn images_get_index<'a>(map: &'a IndexMap<String, Image>, index: usize) -> (entry: Option<
    (&'a String, &'a Image),
>)
    ensures
        match entry {
            Some((id, image)) => index < image_entries(*map).len() && image_entries(
                *map,
            )[index as int] == (id@, image@),
            None => index >= image_entries(*map).len(),
        },
{
    map.get_index(index)
}

/// The emote catalog of one profile.
#[derive(Debug)]
pub struct Catalog {
    images: IndexMap<String, Image>,
    pack: Pack,
}

/// What a [`Catalog`] holds.
pub struct CatalogView {
    /// The images by id, in first-seen order.
    pub images: Entries,
    pub display_name: Seq<char>,
}

impl View for Catalog {
    type V = CatalogView;

    closed spec fn view(&self) -> CatalogView {
        CatalogView { images: image_entries(self.images), display_name: self.pack.display_name@ }
    }
}

/// The image that stands for `sticker` in a catalog.
pub fn sticker_image(sticker: Sticker) -> (r: (String, Image))
    ensures
        r.0@ == sticker@.id,
        r.1@ == image_of(sticker@),
{
    let mut usage: Vec<String> = Vec::new();
    usage.push(String::from_str("sticker"));
    assert(usage.deep_view() =~= sticker_usage());
    let image = Image { body: sticker.body, info: sticker.info, url: sticker.url, usage };
    (sticker.id, image)
}

impl Catalog {
    #[verifier::type_invariant]
    spec fn holds_each_sticker_once(self) -> bool {
        &&& distinct_ids(image_entries(self.images))
        &&& tagged_as_stickers(image_entries(self.images))
    }

    /// A catalog without images, under the default display name.
    pub fn new() -> (catalog: Catalog)
        ensures
            catalog@.images.len() == 0,
            catalog@.display_name == default_display_name(),
    {
        Catalog { images: images_new(), pack: Pack { display_name: String::from_str("Sticker Pack") } }
    }

    /// The number of images.  No id is held twice, and every image is
    /// tagged as a sticker.
    pub fn len(&self) -> (n: usize)
        ensures
            n == self@.images.len(),
            distinct_ids(self@.images),
            tagged_as_stickers(self@.images),
    {
        proof {
            use_type_invariant(self);
        }
        images_len(&self.images)
    }

    /// The id and image at `index` of the catalog's order.
    pub fn get_index(&self, index: usize) -> (entry: Option<(&String, &Image)>)
        ensures
            match entry {
                Some((id, image)) => index < self@.images.len() && self@.images[index as int] == (
                    id@,
                    image@,
                ),
                None => index >= self@.images.len(),
            },
    {
        images_get_index(&self.images, index)
    }

    /// The catalog's display metadata.
    pub fn pack(&self) -> (pack: &Pack)
        ensures
            pack.display_name@ == self@.display_name,
    {
        &self.pack
    }

    /// The catalog with a sticker stored under its id.  An id that the
    /// catalog already holds keeps its position and takes the new image; a
    /// new id goes last.
    pub fn with_sticker(self, sticker: Sticker) -> (catalog: Catalog)
        ensures
            catalog@.images == upsert(self@.images, sticker@.id, image_of(sticker@)),
            catalog@.display_name == self@.display_name,
    {
        proof {
            use_type_invariant(&self);
            upsert_keeps_distinct(self@.images, sticker@.id, image_of(sticker@));
            upsert_keeps_tags(self@.images, sticker@.id, image_of(sticker@));
        }
        let Catalog { images, pack } = self;
        let mut images = images;
        let (id, image) = sticker_image(sticker);
        images_insert(&mut images, id, image);
        Catalog { images, pack }
    }

    /// The catalog with the stickers of a manifest stored, in document
    /// order.
    pub fn with_pack(self, pack: StickerPack) -> (catalog: Catalog)
        ensures
            catalog@.images == merge_stickers(self@.images, pack@),
            catalog@.display_name == self@.display_name,
    {
        let ghost before = self@;
        let ghost stickers = pack@;
        let ghost all = pack.stickers@;
        let mut catalog = self;
        for sticker in it: pack.stickers
            invariant
                it.seq() == all,
                stickers == Seq::new(all.len(), |i: int| all[i]@),
                catalog@.images == merge_stickers(before.images, stickers.take(it.index() as int)),
                catalog@.display_name == before.display_name,
        {
            proof {
                let n = it.index() as int;
                assert(stickers.take(n + 1).drop_last() =~= stickers.take(n));
            }
            catalog = catalog.with_sticker(sticker);
        }
        assert(stickers.take(all.len() as int) =~= stickers);
        catalog
    }
}

/// The ids of the entries, in order.
pub open spec fn ids_of(entries: Entries) -> Seq<Seq<char>> {
    Seq::new(entries.len(), |i: int| entries[i].0)
}

/// The ids of the stickers, in order.
pub open spec fn sticker_ids(stickers: Seq<StickerView>) -> Seq<Seq<char>> {
    Seq::new(stickers.len(), |i: int| stickers[i].id)
}

/// The image stored under `id`, where `id` is held.
pub open spec fn image_at(entries: Entries, id: Seq<char>) -> ImageView
    recommends
        has_id(entries, id),
{
    entries[position_of(entries, id)].1
}

/// `ids` without the repetitions: each id once, where it first occurs.
pub open spec fn first_seen(ids: Seq<Seq<char>>) -> Seq<Seq<char>>
    decreases ids.len(),
{
    if ids.len() == 0 {
        ids
    } else if ids.drop_last().contains(ids.last()) {
        first_seen(ids.drop_last())
    } else {
        first_seen(ids.drop_last()).push(ids.last())
    }
}

/// The position of an id is a position of the entries or their number, and
/// it is the first entry that has the id.
pub proof fn position_of_is_first(entries: Entries, id: Seq<char>)
    ensures
        0 <= position_of(entries, id) <= entries.len(),
        position_of(entries, id) < entries.len() ==> entries[position_of(entries, id)].0 == id,
        forall|i: int| 0 <= i < position_of(entries, id) ==> (#[trigger] entries[i]).0 != id,
        has_id(entries, id) <==> position_of(entries, id) < entries.len(),
    decreases entries.len(),
{
    if entries.len() > 0 && entries[0].0 != id {
        let rest = entries.drop_first();
        position_of_is_first(rest, id);
        assert forall|i: int| 0 <= i < position_of(entries, id) implies (#[trigger] entries[i]).0
            != id by {
            if i > 0 {
                assert(rest[i - 1] == entries[i]);
            }
        }
        if has_id(entries, id) {
            let i = choose|i: int| 0 <= i < entries.len() && (#[trigger] entries[i]).0 == id;
            assert(rest[i - 1] == entries[i]);
        }
    }
}

/// The first entry under an id is where `position_of` says.
pub proof fn position_of_found(entries: Entries, id: Seq<char>, at: int)
    requires
        0 <= at <= entries.len(),
        at < entries.len() ==> entries[at].0 == id,
        forall|i: int| 0 <= i < at ==> (#[trigger] entries[i]).0 != id,
    ensures
        position_of(entries, id) == at,
{
    position_of_is_first(entries, id);
}

/// Storing an image keeps the ids distinct.
pub proof fn upsert_keeps_distinct(entries: Entries, id: Seq<char>, image: ImageView)
    requires
        distinct_ids(entries),
    ensures
        distinct_ids(upsert(entries, id, image)),
{
    position_of_is_first(entries, id);
}

/// Storing the image of a sticker keeps every image tagged as a sticker.
pub proof fn upsert_keeps_tags(entries: Entries, id: Seq<char>, image: ImageView)
    requires
        tagged_as_stickers(entries),
        image.usage == sticker_usage(),
    ensures
        tagged_as_stickers(upsert(entries, id, image)),
{
    position_of_is_first(entries, id);
}

/// Storing an image moves no entry: an id that is held stays where it is, a
/// new id is added behind the others.
pub proof fn upsert_keeps_order(entries: Entries, id: Seq<char>, image: ImageView)
    ensures
        ids_of(upsert(entries, id, image)) == if has_id(entries, id) {
            ids_of(entries)
        } else {
            ids_of(entries).push(id)
        },
{
    position_of_is_first(entries, id);
}

/// The image stored last under an id is the one found there.
pub proof fn upsert_stores_image(entries: Entries, id: Seq<char>, image: ImageView)
    ensures
        has_id(upsert(entries, id, image), id),
        image_at(upsert(entries, id, image), id) == image,
{
    position_of_is_first(entries, id);
    let at = position_of(entries, id);
    let after = upsert(entries, id, image);
    assert(after[at].0 == id);
    position_of_found(after, id, at);
}

/// Storing under one id leaves every other id as it was: held or not, and
/// with the same image.
pub proof fn upsert_keeps_others(entries: Entries, id: Seq<char>, image: ImageView, other: Seq<char>)
    requires
        other != id,
    ensures
        has_id(upsert(entries, id, image), other) == has_id(entries, other),
        has_id(entries, other) ==> image_at(upsert(entries, id, image), other) == image_at(
            entries,
            other,
        ),
{
    position_of_is_first(entries, id);
    position_of_is_first(entries, other);
    let after = upsert(entries, id, image);
    let at = position_of(entries, other);
    if at < entries.len() {
        position_of_found(after, other, at);
        position_of_is_first(after, other);
    } else {
        position_of_found(after, other, after.len() as int);
        position_of_is_first(after, other);
    }
}

/// Merging keeps the ids distinct and the images tagged as stickers.
pub proof fn merge_keeps_catalog(entries: Entries, stickers: Seq<StickerView>)
    requires
        distinct_ids(entries),
        tagged_as_stickers(entries),
    ensures
        distinct_ids(merge_stickers(entries, stickers)),
        tagged_as_stickers(merge_stickers(entries, stickers)),
    decreases stickers.len(),
{
    if stickers.len() > 0 {
        let last = stickers.last();
        let merged = merge_stickers(entries, stickers.drop_last());
        merge_keeps_catalog(entries, stickers.drop_last());
        upsert_keeps_distinct(merged, last.id, image_of(last));
        upsert_keeps_tags(merged, last.id, image_of(last));
    }
}

/// Merging one pack and then another is merging the two as one.
pub proof fn merge_in_turn(entries: Entries, first: Seq<StickerView>, second: Seq<StickerView>)
    ensures
        merge_stickers(merge_stickers(entries, first), second) == merge_stickers(
            entries,
            first + second,
        ),
    decreases second.len(),
{
    if second.len() > 0 {
        merge_in_turn(entries, first, second.drop_last());
        assert((first + second).drop_last() =~= first + second.drop_last());
    }
}

/// An id is among the first-seen ids exactly if it is among the ids.
pub proof fn first_seen_holds_the_same(ids: Seq<Seq<char>>, id: Seq<char>)
    ensures
        first_seen(ids).contains(id) <==> ids.contains(id),
    decreases ids.len(),
{
    if ids.len() > 0 {
        let front = ids.drop_last();
        first_seen_holds_the_same(front, id);
        first_seen_holds_the_same(front, ids.last());
        if ids.contains(id) {
            let i = choose|i: int| 0 <= i < ids.len() && ids[i] == id;
            if i < front.len() {
                assert(front[i] == id);
            }
        }
        if front.contains(id) {
            let i = choose|i: int| 0 <= i < front.len() && front[i] == id;
            assert(ids[i] == id);
        }
        if front.contains(ids.last()) {
        } else {
            let seen = first_seen(front);
            if seen.contains(id) {
                let i = choose|i: int| 0 <= i < seen.len() && seen[i] == id;
                assert(seen.push(ids.last())[i] == id);
            }
            if seen.push(ids.last()).contains(id) {
                let i = choose|i: int|
                    0 <= i < seen.push(ids.last()).len() && seen.push(ids.last())[i] == id;
                if i < seen.len() {
                    assert(seen[i] == id);
                } else {
                    assert(ids[ids.len() - 1] == id);
                }
            } else if id == ids.last() {
                assert(seen.push(ids.last())[seen.len() as int] == id);
            }
        }
    }
}

/// Ids that are distinct are their own first-seen ids.
pub proof fn first_seen_of_distinct(entries: Entries)
    requires
        distinct_ids(entries),
    ensures
        first_seen(ids_of(entries)) == ids_of(entries),
    decreases entries.len(),
{
    let ids = ids_of(entries);
    if entries.len() > 0 {
        let front = entries.drop_last();
        assert(ids_of(front) =~= ids.drop_last());
        first_seen_of_distinct(front);
        if ids.drop_last().contains(ids.last()) {
            let i = choose|i: int| 0 <= i < ids.drop_last().len() && ids.drop_last()[i] == ids.last();
            assert(entries[i].0 == entries[entries.len() - 1].0);
        }
        assert(ids.drop_last().push(ids.last()) =~= ids);
    }
}

/// First-seen order: after a merge the catalog holds each id once, in the
/// order in which the ids first occur among the ids it held and the ids of
/// the stickers.
pub proof fn merge_is_first_seen_order(entries: Entries, stickers: Seq<StickerView>)
    requires
        distinct_ids(entries),
    ensures
        ids_of(merge_stickers(entries, stickers)) == first_seen(
            ids_of(entries) + sticker_ids(stickers),
        ),
    decreases stickers.len(),
{
    let all = ids_of(entries) + sticker_ids(stickers);
    if stickers.len() == 0 {
        first_seen_of_distinct(entries);
    } else {
        let last = stickers.last();
        let front = stickers.drop_last();
        let merged = merge_stickers(entries, front);
        merge_is_first_seen_order(entries, front);
        upsert_keeps_order(merged, last.id, image_of(last));
        assert(all.drop_last() =~= ids_of(entries) + sticker_ids(front));
        first_seen_holds_the_same(all.drop_last(), last.id);
        assert(has_id(merged, last.id) <==> ids_of(merged).contains(last.id)) by {
            if has_id(merged, last.id) {
                let i = choose|i: int| 0 <= i < merged.len() && (#[trigger] merged[i]).0 == last.id;
                assert(ids_of(merged)[i] == last.id);
            }
            if ids_of(merged).contains(last.id) {
                let i = choose|i: int| 0 <= i < ids_of(merged).len() && ids_of(merged)[i] == last.id;
                assert(merged[i].0 == last.id);
            }
        }
    }
}

/// Last writer wins: the image under an id is that of the last sticker with
/// the id.
pub proof fn merge_last_writer_wins(entries: Entries, stickers: Seq<StickerView>, k: int)
    requires
        0 <= k < stickers.len(),
        forall|j: int| k < j < stickers.len() ==> (#[trigger] stickers[j]).id != stickers[k].id,
    ensures
        has_id(merge_stickers(entries, stickers), stickers[k].id),
        image_at(merge_stickers(entries, stickers), stickers[k].id) == image_of(stickers[k]),
    decreases stickers.len(),
{
    let last = stickers.last();
    let front = stickers.drop_last();
    let merged = merge_stickers(entries, front);
    if k == stickers.len() - 1 {
        upsert_stores_image(merged, last.id, image_of(last));
    } else {
        merge_last_writer_wins(entries, front, k);
        upsert_keeps_others(merged, last.id, image_of(last), stickers[k].id);
    }
}

/// An id that no sticker carries is held after the merge as before, with the
/// image it had.
pub proof fn merge_keeps_untouched(entries: Entries, stickers: Seq<StickerView>, id: Seq<char>)
    requires
        !sticker_ids(stickers).contains(id),
    ensures
        has_id(merge_stickers(entries, stickers), id) == has_id(entries, id),
        has_id(entries, id) ==> image_at(merge_stickers(entries, stickers), id) == image_at(
            entries,
            id,
        ),
    decreases stickers.len(),
{
    if stickers.len() > 0 {
        let last = stickers.last();
        let front = stickers.drop_last();
        assert forall|i: int| 0 <= i < front.len() implies sticker_ids(front)[i] != id by {
            assert(sticker_ids(stickers)[i] == stickers[i].id);
        }
        merge_keeps_untouched(entries, front, id);
        assert(sticker_ids(stickers)[stickers.len() - 1] == last.id);
        upsert_keeps_others(merge_stickers(entries, front), last.id, image_of(last), id);
    }
}

} // verus!

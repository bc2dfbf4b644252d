//! The emote aggregator: one catalog out of all manifests of a profile.
//!
//! Fetching and parsing happen outside; this module decides.  An aggregation
//! begins with the profile's index and then asks for one manifest after the
//! other, in the order of the index.  Each manifest that arrives is merged
//! into the catalog; the first one that cannot be fetched or parsed ends the
//! aggregation with an error, and nothing of the catalog is handed out.

use vstd::prelude::*;
use crate::catalog::{
    default_display_name, merge_in_turn, merge_stickers, Catalog, CatalogView, StickerPack,
    StickerView,
};
use crate::pack_index::Index;

verus! {

/// Why an aggregation ended without a catalog.
#[derive(Clone, Debug, PartialEq, Eq)]
pub enum AggregateError {
    /// The store could not list the profile's keys.
    StoreList,
    /// The store could not hand out the object under `key`.
    StoreFetch { key: String },
    /// The object under `key` is not a manifest.
    ManifestParse { key: String },
}

/// What an [`AggregateError`] holds.
pub enum AggregateErrorView {
    StoreList,
    StoreFetch { key: Seq<char> },
    ManifestParse { key: Seq<char> },
}

impl View for AggregateError {
    type V = AggregateErrorView;

    open spec fn view(&self) -> AggregateErrorView {
        match self {
            AggregateError::StoreList => AggregateErrorView::StoreList,
            AggregateError::StoreFetch { key } => AggregateErrorView::StoreFetch { key: key@ },
            AggregateError::ManifestParse { key } => AggregateErrorView::ManifestParse { key: key@ },
        }
    }
}

/// What came of fetching and parsing one manifest.
#[derive(Clone, Debug, PartialEq, Eq)]
pub enum Fetched {
    /// The object was fetched and is this manifest.
    Manifest(StickerPack),
    /// The store did not hand out the object.
    FetchFailed,
    /// The object was fetched and is not a manifest.
    ParseFailed,
}

/// What a [`Fetched`] holds.
pub enum FetchedView {
    Manifest(Seq<StickerView>),
    FetchFailed,
    ParseFailed,
}

impl View for Fetched {
    type V = FetchedView;

    open spec fn view(&self) -> FetchedView {
        match self {
            Fetched::Manifest(pack) => FetchedView::Manifest(pack@),
            Fetched::FetchFailed => FetchedView::FetchFailed,
            Fetched::ParseFailed => FetchedView::ParseFailed,
        }
    }
}

/// An aggregation that waits for a manifest.
#[derive(Debug)]
pub struct Pending {
    keys: Vec<String>,
    next: usize,
    catalog: Catalog,
}

/// What a [`Pending`] holds.
pub struct PendingView {
    /// The manifest keys of the profile, in merge order.
    pub keys: Seq<Seq<char>>,
    /// The position in `keys` of the manifest that is waited for.
    pub next: int,
    /// What the manifests before `next` have been merged to.
    pub catalog: CatalogView,
}

impl View for Pending {
    type V = PendingView;

    closed spec fn view(&self) -> PendingView {
        PendingView { keys: self.keys.deep_view(), next: self.next as int, catalog: self.catalog@ }
    }
}

/// Where an aggregation stands: it asks for a manifest, or it has ended.
#[derive(Debug)]
pub enum Progress {
    /// The manifest under the pending key is to be fetched and parsed.
    Fetch(Pending),
    /// Every manifest is merged; this is the catalog.
    Done(Catalog),
    /// The aggregation was given up.
    Failed(AggregateError),
}

/// What a [`Progress`] holds.
pub enum ProgressView {
    Fetch(PendingView),
    Done(CatalogView),
    Failed(AggregateErrorView),
}

impl View for Progress {
    type V = ProgressView;

    open spec fn view(&self) -> ProgressView {
        match self {
            Progress::Fetch(pending) => ProgressView::Fetch(pending@),
            Progress::Done(catalog) => ProgressView::Done(catalog@),
            Progress::Failed(error) => ProgressView::Failed(error@),
        }
    }
}

/// The catalog before any manifest is merged: no images, the default name.
pub open spec fn empty_catalog() -> CatalogView {
    CatalogView { images: Seq::empty(), display_name: default_display_name() }
}

/// Where an aggregation over `keys` begins: with nothing to fetch it is done
/// at once, with an empty catalog; else it asks for the first manifest.
pub open spec fn start(keys: Seq<Seq<char>>) -> ProgressView {
    if keys.len() == 0 {
        ProgressView::Done(empty_catalog())
    } else {
        ProgressView::Fetch(PendingView { keys, next: 0, catalog: empty_catalog() })
    }
}

/// Where a pending aggregation goes on what came of the manifest it waited
/// for: a manifest is merged, and the next one asked for or the catalog
/// handed out; a failure ends the aggregation under the key that failed.
pub open spec fn step(pending: PendingView, fetched: FetchedView) -> ProgressView {
    match fetched {
        FetchedView::Manifest(stickers) => {
            let catalog = CatalogView {
                images: merge_stickers(pending.catalog.images, stickers),
                display_name: pending.catalog.display_name,
            };
            if pending.next + 1 < pending.keys.len() {
                ProgressView::Fetch(
                    PendingView { keys: pending.keys, next: pending.next + 1, catalog },
                )
            } else {
                ProgressView::Done(catalog)
            }
        },
        FetchedView::FetchFailed => ProgressView::Failed(
            AggregateErrorView::StoreFetch { key: pending.keys[pending.next] },
        ),
        FetchedView::ParseFailed => ProgressView::Failed(
            AggregateErrorView::ManifestParse { key: pending.keys[pending.next] },
        ),
    }
}

impl Pending {
    #[verifier::type_invariant]
    spec fn waits_for_a_key(self) -> bool {
        self.next < self.keys.len()
    }

    /// The key of the manifest that is waited for.
    pub fn key(&self) -> (key: &String)
        ensures
            0 <= self@.next < self@.keys.len(),
            key@ == self@.keys[self@.next],
    {
        proof {
            use_type_invariant(self);
        }
        &self.keys[self.next]
    }

    /// Goes on with what came of fetching and parsing the manifest under
    /// [`Pending::key`].
    pub fn resume(self, fetched: Fetched) -> (progress: Progress)
        ensures
            progress@ == step(self@, fetched@),
    {
        proof {
            use_type_invariant(&self);
        }
        let ghost before = self@;
        let Pending { keys, next, catalog } = self;
        match fetched {
            Fetched::Manifest(pack) => {
                let catalog = catalog.with_pack(pack);
                if next + 1 < keys.len() {
                    Progress::Fetch(Pending { keys, next: next + 1, catalog })
                } else {
                    Progress::Done(catalog)
                }
            },
            Fetched::FetchFailed => Progress::Failed(
                AggregateError::StoreFetch { key: keys[next].clone() },
            ),
            Fetched::ParseFailed => Progress::Failed(
                AggregateError::ManifestParse { key: keys[next].clone() },
            ),
        }
    }
}

/// Begins an aggregation over a profile's index.  Without an index, because
/// the store could not list the keys, the aggregation fails at once.
pub fn begin(index: Option<Index>) -> (progress: Progress)
    ensures
        progress@ == match index {
            Some(index) => start(index@.packs),
            None => ProgressView::Failed(AggregateErrorView::StoreList),
        },
{
    match index {
        None => Progress::Failed(AggregateError::StoreList),
        Some(index) => {
            let catalog = Catalog::new();
            assert(catalog@.images =~= Seq::empty());
            if index.packs.len() == 0 {
                Progress::Done(catalog)
            } else {
                Progress::Fetch(Pending { keys: index.packs, next: 0, catalog })
            }
        },
    }
}

/// Where an aggregation stands after it was given `replies`, one for each
/// manifest it asked for, in order.  Once it has ended, further replies are
/// not looked at.
pub open spec fn run(progress: ProgressView, replies: Seq<FetchedView>) -> ProgressView
    decreases replies.len(),
{
    if replies.len() == 0 {
        progress
    } else {
        match progress {
            ProgressView::Fetch(pending) => run(step(pending, replies.first()), replies.drop_first()),
            _ => progress,
        }
    }
}

/// The replies of a store that hands out each of `packs`.
pub open spec fn manifests(packs: Seq<Seq<StickerView>>) -> Seq<FetchedView> {
    Seq::new(packs.len(), |i: int| FetchedView::Manifest(packs[i]))
}

/// The error that a failed reply ends an aggregation with.
pub open spec fn error_of(failure: FetchedView, key: Seq<char>) -> AggregateErrorView
    recommends
        !(failure is Manifest),
{
    match failure {
        FetchedView::ParseFailed => AggregateErrorView::ManifestParse { key },
        _ => AggregateErrorView::StoreFetch { key },
    }
}

/// A profile without manifests has a catalog: the empty one, under the
/// default name.
pub proof fn empty_index_gives_empty_catalog()
    ensures
        start(Seq::empty()) == ProgressView::Done(empty_catalog()),
        empty_catalog().images.len() == 0,
        empty_catalog().display_name == default_display_name(),
{
}

proof fn run_merges(pending: PendingView, packs: Seq<Seq<StickerView>>)
    requires
        0 <= pending.next,
        pending.next + packs.len() == pending.keys.len(),
        packs.len() > 0,
    ensures
        run(ProgressView::Fetch(pending), manifests(packs)) == ProgressView::Done(
            CatalogView {
                images: merge_stickers(pending.catalog.images, packs.flatten()),
                display_name: pending.catalog.display_name,
            },
        ),
    decreases packs.len(),
{
    let replies = manifests(packs);
    let rest = packs.drop_first();
    assert(replies.drop_first() =~= manifests(rest));
    merge_in_turn(pending.catalog.images, packs.first(), rest.flatten());
    let stepped = step(pending, replies.first());
    assert(run(ProgressView::Fetch(pending), replies) == run(stepped, replies.drop_first()));
    if let ProgressView::Fetch(next) = stepped {
        run_merges(next, rest);
    }
}

proof fn run_fails(
    pending: PendingView,
    packs: Seq<Seq<StickerView>>,
    failure: FetchedView,
    later: Seq<FetchedView>,
)
    requires
        0 <= pending.next,
        pending.next + packs.len() < pending.keys.len(),
        !(failure is Manifest),
    ensures
        run(ProgressView::Fetch(pending), manifests(packs) + seq![failure] + later)
            == ProgressView::Failed(
            error_of(failure, pending.keys[pending.next + packs.len()]),
        ),
    decreases packs.len(),
{
    let replies = manifests(packs) + seq![failure] + later;
    if packs.len() == 0 {
        let ended = step(pending, failure);
        assert(run(ended, replies.drop_first()) == ended);
    } else {
        let rest = packs.drop_first();
        assert(replies.drop_first() =~= manifests(rest) + seq![failure] + later);
        match step(pending, replies.first()) {
            ProgressView::Fetch(next) => {
                run_fails(next, rest, failure, later);
            },
            _ => {},
        }
    }
}

/// Merge order: where every manifest of the index arrives, the aggregation
/// ends with the catalog that holds all their stickers merged in the order
/// of the index, under the default name.
pub proof fn complete_run_merges_in_order(keys: Seq<Seq<char>>, packs: Seq<Seq<StickerView>>)
    requires
        packs.len() == keys.len(),
    ensures
        run(start(keys), manifests(packs)) == ProgressView::Done(
            CatalogView {
                images: merge_stickers(Seq::empty(), packs.flatten()),
                display_name: default_display_name(),
            },
        ),
{
    if keys.len() > 0 {
        run_merges(PendingView { keys, next: 0, catalog: empty_catalog() }, packs);
    }
}

/// No partial catalog: where the manifests `packs` arrive and the next one
/// fails, the aggregation ends with the error of that failure under the key
/// that failed, whatever the merged manifests held and whatever comes
/// `later`.
pub proof fn failure_aborts_the_run(
    keys: Seq<Seq<char>>,
    packs: Seq<Seq<StickerView>>,
    failure: FetchedView,
    later: Seq<FetchedView>,
)
    requires
        packs.len() < keys.len(),
        !(failure is Manifest),
    ensures
        run(start(keys), manifests(packs) + seq![failure] + later) == ProgressView::Failed(
            error_of(failure, keys[packs.len() as int]),
        ),
{
    run_fails(PendingView { keys, next: 0, catalog: empty_catalog() }, packs, failure, later);
}

} // verus!

//! Getting many pieces at once: first from the farmer cache, then from the
//! piece caches of the cluster (grouped by cache), and what is still missing
//! from the cluster controller. Every index that no source delivers is
//! answered with an error.

use crate::cluster_lookup::CacheLocation;
use crate::source::PieceIndex;
use vstd::prelude::*;

verus! {

/// The offsets to read from one piece cache.
#[derive(Debug)]
pub struct CacheGroup {
    pub cache_id: u128,
    pub offsets: Vec<u32>,
}

impl View for CacheGroup {
    type V = (u128, Seq<u32>);

    open spec fn view(&self) -> (u128, Seq<u32>) {
        (self.cache_id, self.offsets@)
    }
}

/// Which answers the batch fetch waits for.
#[derive(Clone, Copy, Debug, PartialEq, Eq, Structural)]
pub enum BatchStage {
    FarmerCache,
    Locating,
    ReadingCaches,
    AskingController,
    Finished,
    Aborted,
}

/// Why an index is answered with an error.
#[derive(Clone, Copy, Debug, PartialEq, Eq, Structural)]
pub enum BatchFailure {
    /// The request to the controller failed.
    ControllerUnreachable,
    /// No source had the piece.
    NotFound,
}

/// An answer that came back to the batch fetch.
#[derive(Debug)]
pub enum BatchEvent<P> {
    /// The farmer cache's answer for one index.
    FarmerCacheAnswered(PieceIndex, Option<P>),
    /// The farmer cache has answered for every index.
    FarmerCacheDone,
    /// The controller reports that the piece with this index is kept at this location.
    Located(PieceIndex, CacheLocation),
    /// The controller has reported every location it knows.
    LocatingDone,
    /// A piece cache delivered a piece.
    CachePiece(PieceIndex, P),
    /// A piece cache did not deliver an entry (missing entry, or failed read).
    CacheMiss,
    /// Every piece cache has been read.
    CachesDone,
    /// The controller delivered a piece.
    ControllerPiece(PieceIndex, P),
    /// The controller has delivered every piece it has.
    ControllerDone,
    /// The pending request (to locate pieces, or to the controller) failed.
    RequestFailed,
}

/// What the driver of the batch fetch does next.
#[derive(Debug)]
pub enum BatchAction<P> {
    /// Ask the farmer cache for these indices.
    AskFarmerCache(Vec<PieceIndex>),
    /// Answer the index with the piece the farmer cache had.
    DeliverFromFarmerCache(PieceIndex, P),
    /// Ask the controller where these pieces are cached.
    Locate(Vec<PieceIndex>),
    /// Read these offsets from these piece caches.
    ReadCaches(Vec<CacheGroup>),
    /// Offer the piece to the farmer cache, then answer the index with it.
    StoreThenDeliver(PieceIndex, P),
    /// Ask the controller for these pieces.
    AskController(Vec<PieceIndex>),
    /// Answer the index with the piece the controller delivered.
    Deliver(PieceIndex, P),
    /// Answer each of these indices with this error; the fetch is over.
    Fail(Vec<PieceIndex>, BatchFailure),
    /// The fetch is over.
    Finish,
    /// The whole fetch fails with the error of the request that failed.
    Abort,
    /// Nothing to do.
    Nothing,
}

/// The mathematical form of a [`BatchAction`].
pub enum BatchActionView<P> {
    AskFarmerCache(Seq<PieceIndex>),
    DeliverFromFarmerCache(PieceIndex, P),
    Locate(Seq<PieceIndex>),
    ReadCaches(Seq<(u128, Seq<u32>)>),
    StoreThenDeliver(PieceIndex, P),
    AskController(Seq<PieceIndex>),
    Deliver(PieceIndex, P),
    Fail(Seq<PieceIndex>, BatchFailure),
    Finish,
    Abort,
    Nothing,
}

pub open spec fn groups_view(groups: Seq<CacheGroup>) -> Seq<(u128, Seq<u32>)> {
    groups.map_values(|g: CacheGroup| g@)
}

impl<P> View for BatchAction<P> {
    type V = BatchActionView<P>;

    open spec fn view(&self) -> BatchActionView<P> {
        match self {
            BatchAction::AskFarmerCache(v) => BatchActionView::AskFarmerCache(v@),
            BatchAction::DeliverFromFarmerCache(i, p) => BatchActionView::DeliverFromFarmerCache(*i, *p),
            BatchAction::Locate(v) => BatchActionView::Locate(v@),
            BatchAction::ReadCaches(g) => BatchActionView::ReadCaches(groups_view(g@)),
            BatchAction::StoreThenDeliver(i, p) => BatchActionView::StoreThenDeliver(*i, *p),
            BatchAction::AskController(v) => BatchActionView::AskController(v@),
            BatchAction::Deliver(i, p) => BatchActionView::Deliver(*i, *p),
            BatchAction::Fail(v, f) => BatchActionView::Fail(v@, *f),
            BatchAction::Finish => BatchActionView::Finish,
            BatchAction::Abort => BatchActionView::Abort,
            BatchAction::Nothing => BatchActionView::Nothing,
        }
    }
}

/// The state of a batch fetch.
pub struct BatchFetch {
    stage: BatchStage,
    /// The indices the farmer cache did not have, in the order it answered.
    missing: Vec<PieceIndex>,
    /// The offsets to read, per piece cache, while locating.
    groups: Vec<CacheGroup>,
    /// The indices not delivered yet by a piece cache or the controller.
    outstanding: Vec<PieceIndex>,
}

/// The mathematical form of a [`BatchFetch`].
pub struct BatchFetchView {
    pub stage: BatchStage,
    pub missing: Seq<PieceIndex>,
    pub groups: Seq<(u128, Seq<u32>)>,
    pub outstanding: Seq<PieceIndex>,
}

impl View for BatchFetch {
    type V = BatchFetchView;

    closed spec fn view(&self) -> BatchFetchView {
        BatchFetchView {
            stage: self.stage,
            missing: self.missing@,
            groups: groups_view(self.groups@),
            outstanding: self.outstanding@,
        }
    }
}

/// The elements of `s`, each once, in the order of their first occurrence.
pub open spec fn first_occurrences(s: Seq<PieceIndex>) -> Seq<PieceIndex>
    decreases s.len(),
{
    if s.len() == 0 {
        Seq::empty()
    } else {
        let r = first_occurrences(s.drop_last());
        if r.contains(s.last()) {
            r
        } else {
            r.push(s.last())
        }
    }
}

/// `s` without any occurrence of `x`.
pub open spec fn without(s: Seq<PieceIndex>, x: PieceIndex) -> Seq<PieceIndex>
    decreases s.len(),
{
    if s.len() == 0 {
        Seq::empty()
    } else {
        let r = without(s.drop_last(), x);
        if s.last() == x {
            r
        } else {
            r.push(s.last())
        }
    }
}

/// No two groups are for the same piece cache.
pub open spec fn distinct_caches(groups: Seq<(u128, Seq<u32>)>) -> bool {
    forall|a: int, b: int|
        0 <= a < groups.len() && 0 <= b < groups.len() && a != b ==> #[trigger] groups[a].0
            != #[trigger] groups[b].0
}

/// Records that a piece is kept at `location`: its offset joins the group of its
/// cache, or a new group is opened for the cache.
pub open spec fn add_location(groups: Seq<(u128, Seq<u32>)>, location: CacheLocation) -> Seq<(u128, Seq<u32>)> {
    if exists|j: int| 0 <= j < groups.len() && #[trigger] groups[j].0 == location.cache_id {
        let j = choose|j: int| 0 <= j < groups.len() && #[trigger] groups[j].0 == location.cache_id;
        groups.update(j, (location.cache_id, groups[j].1.push(location.offset)))
    } else {
        groups.push((location.cache_id, seq![location.offset]))
    }
}

/// Well-formed state: nothing is outstanding twice, and each cache has one group.
pub open spec fn batch_wf(s: BatchFetchView) -> bool {
    &&& s.outstanding.no_duplicates()
    &&& distinct_caches(s.groups)
}

/// The state a batch fetch begins in.
pub open spec fn batch_initial() -> BatchFetchView {
    BatchFetchView {
        stage: BatchStage::FarmerCache,
        missing: Seq::empty(),
        groups: Seq::empty(),
        outstanding: Seq::empty(),
    }
}

/// One step of the batch fetch.
pub open spec fn batch_transition<P>(s: BatchFetchView, event: BatchEvent<P>) -> (BatchFetchView, BatchActionView<P>) {
    match s.stage {
        BatchStage::FarmerCache => match event {
            BatchEvent::FarmerCacheAnswered(i, Some(piece)) => (s, BatchActionView::DeliverFromFarmerCache(i, piece)),
            BatchEvent::FarmerCacheAnswered(i, None) => (
                BatchFetchView { missing: s.missing.push(i), ..s },
                BatchActionView::Nothing,
            ),
            BatchEvent::FarmerCacheDone => (
                BatchFetchView {
                    stage: BatchStage::Locating,
                    outstanding: first_occurrences(s.missing),
                    ..s
                },
                BatchActionView::Locate(s.missing),
            ),
            _ => (s, BatchActionView::Nothing),
        },
        BatchStage::Locating => match event {
            BatchEvent::Located(_, location) => (
                BatchFetchView { groups: add_location(s.groups, location), ..s },
                BatchActionView::Nothing,
            ),
            BatchEvent::LocatingDone => (
                BatchFetchView { stage: BatchStage::ReadingCaches, groups: Seq::empty(), ..s },
                BatchActionView::ReadCaches(s.groups),
            ),
            BatchEvent::RequestFailed => (
                BatchFetchView { stage: BatchStage::Aborted, ..s },
                BatchActionView::Abort,
            ),
            _ => (s, BatchActionView::Nothing),
        },
        BatchStage::ReadingCaches => match event {
            BatchEvent::CachePiece(i, piece) => (
                BatchFetchView { outstanding: without(s.outstanding, i), ..s },
                BatchActionView::StoreThenDeliver(i, piece),
            ),
            BatchEvent::CachesDone => if s.outstanding.len() == 0 {
                (BatchFetchView { stage: BatchStage::Finished, ..s }, BatchActionView::Finish)
            } else {
                (
                    BatchFetchView { stage: BatchStage::AskingController, ..s },
                    BatchActionView::AskController(s.outstanding),
                )
            },
            _ => (s, BatchActionView::Nothing),
        },
        BatchStage::AskingController => match event {
            BatchEvent::ControllerPiece(i, piece) => (
                BatchFetchView { outstanding: without(s.outstanding, i), ..s },
                BatchActionView::Deliver(i, piece),
            ),
            BatchEvent::RequestFailed => (
                BatchFetchView { stage: BatchStage::Finished, outstanding: Seq::empty(), ..s },
                BatchActionView::Fail(s.outstanding, BatchFailure::ControllerUnreachable),
            ),
            BatchEvent::ControllerDone => (
                BatchFetchView { stage: BatchStage::Finished, outstanding: Seq::empty(), ..s },
                BatchActionView::Fail(s.outstanding, BatchFailure::NotFound),
            ),
            _ => (s, BatchActionView::Nothing),
        },
        BatchStage::Finished => (s, BatchActionView::Nothing),
        BatchStage::Aborted => (s, BatchActionView::Nothing),
    }
}

pub proof fn lemma_push_contains(r: Seq<PieceIndex>, v: PieceIndex)
    ensures
        forall|x: PieceIndex| #[trigger] r.push(v).contains(x) <==> (r.contains(x) || x == v),
        r.no_duplicates() && !r.contains(v) ==> r.push(v).no_duplicates(),
{
    assert forall|x: PieceIndex| #[trigger] r.push(v).contains(x) <==> (r.contains(x) || x == v) by {
        if r.push(v).contains(x) {
            let k = choose|k: int| 0 <= k < r.push(v).len() && r.push(v)[k] == x;
            if k < r.len() {
                assert(r[k] == x);
            }
        }
        if r.contains(x) {
            let k = choose|k: int| 0 <= k < r.len() && r[k] == x;
            assert(r.push(v)[k] == x);
        }
        if x == v {
            assert(r.push(v)[r.len() as int] == x);
        }
    }
    if r.no_duplicates() && !r.contains(v) {
        assert forall|i: int, j: int| 0 <= i < r.push(v).len() && 0 <= j < r.push(v).len() && i != j
            implies r.push(v)[i] != r.push(v)[j] by {
            if i == r.len() {
                assert(r[j] == r.push(v)[j]);
            } else if j == r.len() {
                assert(r[i] == r.push(v)[i]);
            }
        }
    }
}

pub proof fn lemma_drop_last_contains(s: Seq<PieceIndex>)
    requires
        s.len() > 0,
    ensures
        forall|x: PieceIndex| #[trigger] s.contains(x) <==> (s.drop_last().contains(x) || x == s.last()),
{
    lemma_push_contains(s.drop_last(), s.last());
    assert(s.drop_last().push(s.last()) =~= s);
}

pub proof fn lemma_first_occurrences(s: Seq<PieceIndex>)
    ensures
        first_occurrences(s).no_duplicates(),
        forall|x: PieceIndex| #[trigger] first_occurrences(s).contains(x) <==> s.contains(x),
    decreases s.len(),
{
    if s.len() > 0 {
        lemma_first_occurrences(s.drop_last());
        lemma_drop_last_contains(s);
        lemma_push_contains(first_occurrences(s.drop_last()), s.last());
    }
}

pub proof fn lemma_without(s: Seq<PieceIndex>, x: PieceIndex)
    ensures
        forall|y: PieceIndex| #[trigger] without(s, x).contains(y) <==> (s.contains(y) && y != x),
        s.no_duplicates() ==> without(s, x).no_duplicates(),
        without(s, x).len() <= s.len(),
    decreases s.len(),
{
    if s.len() > 0 {
        lemma_without(s.drop_last(), x);
        lemma_drop_last_contains(s);
        lemma_push_contains(without(s.drop_last(), x), s.last());
        if s.no_duplicates() {
            assert(s.drop_last().no_duplicates());
            if s.last() != x {
                assert(!s.drop_last().contains(s.last())) by {
                    if s.drop_last().contains(s.last()) {
                        let k = choose|k: int| 0 <= k < s.drop_last().len() && s.drop_last()[k] == s.last();
                        assert(s[k] == s[s.len() - 1]);
                    }
                }
            }
        }
    }
}

pub proof fn lemma_add_location(groups: Seq<(u128, Seq<u32>)>, location: CacheLocation)
    requires
        distinct_caches(groups),
    ensures
        distinct_caches(add_location(groups, location)),
{
}

/// The offsets to read from the cache `cache_id`: those of its group, if it has one.
pub open spec fn offsets_of(groups: Seq<(u128, Seq<u32>)>, cache_id: u128) -> Seq<u32> {
    if exists|j: int| 0 <= j < groups.len() && #[trigger] groups[j].0 == cache_id {
        groups[choose|j: int| 0 <= j < groups.len() && #[trigger] groups[j].0 == cache_id].1
    } else {
        Seq::empty()
    }
}

/// Locating a piece adds its offset, last, to the offsets read from its cache,
/// and changes nothing for the other caches: each cache is read with one
/// request for all its offsets, in the order the controller reported them.
pub proof fn law_locations_grouped_by_cache(groups: Seq<(u128, Seq<u32>)>, location: CacheLocation, cache_id: u128)
    requires
        distinct_caches(groups),
    ensures
        offsets_of(add_location(groups, location), cache_id) == if cache_id == location.cache_id {
            offsets_of(groups, cache_id).push(location.offset)
        } else {
            offsets_of(groups, cache_id)
        },
{
    let added = add_location(groups, location);
    lemma_add_location(groups, location);
    if exists|j: int| 0 <= j < groups.len() && #[trigger] groups[j].0 == location.cache_id {
        let j = choose|j: int| 0 <= j < groups.len() && #[trigger] groups[j].0 == location.cache_id;
        assert(added[j].0 == location.cache_id);
        if exists|k: int| 0 <= k < groups.len() && #[trigger] groups[k].0 == cache_id {
            let k = choose|k: int| 0 <= k < groups.len() && #[trigger] groups[k].0 == cache_id;
            assert(added[k].0 == cache_id);
            let k2 = choose|k2: int| 0 <= k2 < added.len() && #[trigger] added[k2].0 == cache_id;
            assert(k2 == k);
        } else {
            if exists|k2: int| 0 <= k2 < added.len() && #[trigger] added[k2].0 == cache_id {
                let k2 = choose|k2: int| 0 <= k2 < added.len() && #[trigger] added[k2].0 == cache_id;
                if k2 != j {
                    assert(groups[k2].0 == cache_id);
                }
            }
        }
    } else {
        let last = groups.len() as int;
        assert(added[last].0 == location.cache_id);
        if exists|k: int| 0 <= k < groups.len() && #[trigger] groups[k].0 == cache_id {
            let k = choose|k: int| 0 <= k < groups.len() && #[trigger] groups[k].0 == cache_id;
            assert(added[k].0 == cache_id);
            let k2 = choose|k2: int| 0 <= k2 < added.len() && #[trigger] added[k2].0 == cache_id;
            assert(k2 == k);
        } else {
            if exists|k2: int| 0 <= k2 < added.len() && #[trigger] added[k2].0 == cache_id {
                let k2 = choose|k2: int| 0 <= k2 < added.len() && #[trigger] added[k2].0 == cache_id;
                if k2 != last {
                    assert(groups[k2].0 == cache_id);
                }
            }
            if cache_id == location.cache_id {
                assert(Seq::<u32>::empty().push(location.offset) =~= seq![location.offset]);
            }
        }
    }
}

/// A copy of `v`.
fn copy_indices(v: &Vec<PieceIndex>) -> (r: Vec<PieceIndex>)
    ensures
        r@ == v@,
{
    let mut r: Vec<PieceIndex> = Vec::new();
    let mut i: usize = 0;
    while i < v.len()
        invariant
            i <= v.len(),
            r@ == v@.take(i as int),
        decreases v.len() - i,
    {
        r.push(v[i]);
        i = i + 1;
        assert(r@ =~= v@.take(i as int));
    }
    assert(v@.take(v.len() as int) =~= v@);
    r
}

/// Whether `x` occurs in `v`.
fn contains_index(v: &Vec<PieceIndex>, x: PieceIndex) -> (b: bool)
    ensures
        b == v@.contains(x),
{
    let mut i: usize = 0;
    while i < v.len()
        invariant
            i <= v.len(),
            forall|k: int| 0 <= k < i ==> v@[k] != x,
        decreases v.len() - i,
    {
        if v[i] == x {
            return true;
        }
        i = i + 1;
    }
    false
}

/// The elements of `v`, each once, in the order of their first occurrence.
fn distinct_indices(v: &Vec<PieceIndex>) -> (r: Vec<PieceIndex>)
    ensures
        r@ == first_occurrences(v@),
{
    let mut r: Vec<PieceIndex> = Vec::new();
    let mut i: usize = 0;
    while i < v.len()
        invariant
            i <= v.len(),
            r@ == first_occurrences(v@.take(i as int)),
        decreases v.len() - i,
    {
        assert(v@.take(i + 1).drop_last() =~= v@.take(i as int));
        if !contains_index(&r, v[i]) {
            r.push(v[i]);
        }
        i = i + 1;
    }
    assert(v@.take(v.len() as int) =~= v@);
    r
}

/// `v` without any occurrence of `x`.
fn remove_index(v: &Vec<PieceIndex>, x: PieceIndex) -> (r: Vec<PieceIndex>)
    ensures
        r@ == without(v@, x),
{
    let mut r: Vec<PieceIndex> = Vec::new();
    let mut i: usize = 0;
    while i < v.len()
        invariant
            i <= v.len(),
            r@ == without(v@.take(i as int), x),
        decreases v.len() - i,
    {
        assert(v@.take(i + 1).drop_last() =~= v@.take(i as int));
        if v[i] != x {
            r.push(v[i]);
        }
        i = i + 1;
    }
    assert(v@.take(v.len() as int) =~= v@);
    r
}

/// Adds the offset of `location` to the group of its cache.
fn add_location_to(groups: &mut Vec<CacheGroup>, location: CacheLocation)
    requires
        distinct_caches(groups_view(old(groups)@)),
    ensures
        groups_view(final(groups)@) == add_location(groups_view(old(groups)@), location),
        distinct_caches(groups_view(final(groups)@)),
{
    let ghost before = groups_view(groups@);
    let mut j: usize = 0;
    while j < groups.len()
        invariant
            j <= groups.len(),
            groups_view(groups@) == before,
            before == groups_view(old(groups)@),
            distinct_caches(before),
            forall|k: int| 0 <= k < j ==> #[trigger] before[k].0 != location.cache_id,
        decreases groups.len() - j,
    {
        if groups[j].cache_id == location.cache_id {
            assert(before[j as int].0 == location.cache_id);
            let mut group = groups.remove(j);
            group.offsets.push(location.offset);
            groups.insert(j, group);
            proof {
                let chosen = choose|k: int| 0 <= k < before.len() && #[trigger] before[k].0 == location.cache_id;
                assert(chosen == j);
                assert(groups_view(groups@) =~= before.update(j as int, (location.cache_id, before[j as int].1.push(location.offset))));
                lemma_add_location(before, location);
            }
            return;
        }
        j = j + 1;
    }
    let mut offsets: Vec<u32> = Vec::new();
    offsets.push(location.offset);
    groups.push(CacheGroup { cache_id: location.cache_id, offsets });
    proof {
        assert(offsets@ =~= seq![location.offset]);
        assert(groups_view(groups@) =~= before.push((location.cache_id, seq![location.offset])));
        lemma_add_location(before, location);
    }
}

/// The state reached and the actions taken when the answers `events` come back,
/// in this order, to a fetch in state `s`.
pub open spec fn batch_run<P>(s: BatchFetchView, events: Seq<BatchEvent<P>>) -> (BatchFetchView, Seq<BatchActionView<P>>)
    decreases events.len(),
{
    if events.len() == 0 {
        (s, Seq::empty())
    } else {
        let before = batch_run(s, events.drop_last());
        let next = batch_transition(before.0, events.last());
        (next.0, before.1.push(next.1))
    }
}

/// The action answers index `i`: with a piece, or with an error.
pub open spec fn answers<P>(action: BatchActionView<P>, i: PieceIndex) -> bool {
    match action {
        BatchActionView::DeliverFromFarmerCache(j, _) => j == i,
        BatchActionView::StoreThenDeliver(j, _) => j == i,
        BatchActionView::Deliver(j, _) => j == i,
        BatchActionView::Fail(failed, _) => failed.contains(i),
        _ => false,
    }
}

/// The action delivers a piece for index `i` that came from a piece cache or the controller.
pub open spec fn delivers_from_cluster<P>(action: BatchActionView<P>, i: PieceIndex) -> bool {
    match action {
        BatchActionView::StoreThenDeliver(j, _) => j == i,
        BatchActionView::Deliver(j, _) => j == i,
        _ => false,
    }
}

/// The action answers index `i` with an error.
pub open spec fn fails<P>(action: BatchActionView<P>, i: PieceIndex) -> bool {
    match action {
        BatchActionView::Fail(failed, _) => failed.contains(i),
        _ => false,
    }
}

/// The action asks the controller for the piece with index `i`.
pub open spec fn asks_controller_for<P>(action: BatchActionView<P>, i: PieceIndex) -> bool {
    match action {
        BatchActionView::AskController(asked) => asked.contains(i),
        _ => false,
    }
}

pub open spec fn answered<P>(actions: Seq<BatchActionView<P>>, i: PieceIndex) -> bool {
    exists|k: int| 0 <= k < actions.len() && #[trigger] answers(actions[k], i)
}

pub open spec fn delivered_from_cluster<P>(actions: Seq<BatchActionView<P>>, i: PieceIndex) -> bool {
    exists|k: int| 0 <= k < actions.len() && #[trigger] delivers_from_cluster(actions[k], i)
}

pub open spec fn failed<P>(actions: Seq<BatchActionView<P>>, i: PieceIndex) -> bool {
    exists|k: int| 0 <= k < actions.len() && #[trigger] fails(actions[k], i)
}

pub open spec fn asked_controller<P>(actions: Seq<BatchActionView<P>>, i: PieceIndex) -> bool {
    exists|k: int| 0 <= k < actions.len() && #[trigger] asks_controller_for(actions[k], i)
}

proof fn lemma_asked_push<P>(actions: Seq<BatchActionView<P>>, a: BatchActionView<P>)
    ensures
        forall|i: PieceIndex| #[trigger] asked_controller(actions.push(a), i) <==> (asked_controller(actions, i) || asks_controller_for(a, i)),
{
    let pushed = actions.push(a);
    assert forall|i: PieceIndex| #[trigger] asked_controller(pushed, i) <==> (asked_controller(actions, i) || asks_controller_for(a, i)) by {
        if asked_controller(pushed, i) {
            let k = choose|k: int| 0 <= k < pushed.len() && #[trigger] asks_controller_for(pushed[k], i);
            if k < actions.len() {
                assert(pushed[k] == actions[k]);
            }
        }
        if asked_controller(actions, i) {
            let k = choose|k: int| 0 <= k < actions.len() && #[trigger] asks_controller_for(actions[k], i);
            assert(pushed[k] == actions[k]);
        }
        if asks_controller_for(a, i) {
            assert(pushed[actions.len() as int] == a);
        }
    }
}

proof fn lemma_actions_push<P>(actions: Seq<BatchActionView<P>>, a: BatchActionView<P>)
    ensures
        forall|i: PieceIndex| #[trigger] answered(actions.push(a), i) <==> (answered(actions, i) || answers(a, i)),
        forall|i: PieceIndex| #[trigger] delivered_from_cluster(actions.push(a), i) <==> (delivered_from_cluster(actions, i) || delivers_from_cluster(a, i)),
        forall|i: PieceIndex| #[trigger] failed(actions.push(a), i) <==> (failed(actions, i) || fails(a, i)),
{
    let pushed = actions.push(a);
    assert forall|i: PieceIndex| #[trigger] answered(pushed, i) <==> (answered(actions, i) || answers(a, i)) by {
        if answered(pushed, i) {
            let k = choose|k: int| 0 <= k < pushed.len() && #[trigger] answers(pushed[k], i);
            if k < actions.len() {
                assert(pushed[k] == actions[k]);
            }
        }
        if answered(actions, i) {
            let k = choose|k: int| 0 <= k < actions.len() && #[trigger] answers(actions[k], i);
            assert(pushed[k] == actions[k]);
        }
        if answers(a, i) {
            assert(pushed[actions.len() as int] == a);
        }
    }
    assert forall|i: PieceIndex| #[trigger] delivered_from_cluster(pushed, i) <==> (delivered_from_cluster(actions, i) || delivers_from_cluster(a, i)) by {
        if delivered_from_cluster(pushed, i) {
            let k = choose|k: int| 0 <= k < pushed.len() && #[trigger] delivers_from_cluster(pushed[k], i);
            if k < actions.len() {
                assert(pushed[k] == actions[k]);
            }
        }
        if delivered_from_cluster(actions, i) {
            let k = choose|k: int| 0 <= k < actions.len() && #[trigger] delivers_from_cluster(actions[k], i);
            assert(pushed[k] == actions[k]);
        }
        if delivers_from_cluster(a, i) {
            assert(pushed[actions.len() as int] == a);
        }
    }
    assert forall|i: PieceIndex| #[trigger] failed(pushed, i) <==> (failed(actions, i) || fails(a, i)) by {
        if failed(pushed, i) {
            let k = choose|k: int| 0 <= k < pushed.len() && #[trigger] fails(pushed[k], i);
            if k < actions.len() {
                assert(pushed[k] == actions[k]);
            }
        }
        if failed(actions, i) {
            let k = choose|k: int| 0 <= k < actions.len() && #[trigger] fails(actions[k], i);
            assert(pushed[k] == actions[k]);
        }
        if fails(a, i) {
            assert(pushed[actions.len() as int] == a);
        }
    }
}

/// What holds of every state a fetch reaches, together with the actions taken so far.
pub open spec fn batch_run_inv<P>(s: BatchFetchView, actions: Seq<BatchActionView<P>>) -> bool {
    &&& batch_wf(s)
    &&& (s.stage == BatchStage::FarmerCache || s.stage == BatchStage::Locating) ==> forall|i: PieceIndex|
        !#[trigger] delivered_from_cluster(actions, i)
    &&& (s.stage == BatchStage::Locating || s.stage == BatchStage::ReadingCaches || s.stage
        == BatchStage::AskingController) ==> forall|i: PieceIndex| #[trigger] s.missing.contains(i)
        ==> s.outstanding.contains(i) || delivered_from_cluster(actions, i) || failed(actions, i)
    &&& s.stage == BatchStage::Finished ==> forall|i: PieceIndex| #[trigger] s.missing.contains(i)
        ==> delivered_from_cluster(actions, i) || failed(actions, i)
    &&& forall|i: PieceIndex| #[trigger] s.outstanding.contains(i) ==> !delivered_from_cluster(actions, i)
    &&& forall|i: PieceIndex| #[trigger] failed(actions, i) ==> s.stage == BatchStage::Finished
        && !delivered_from_cluster(actions, i)
    &&& forall|k: int, i: PieceIndex| 0 <= k < actions.len() && #[trigger] asks_controller_for(actions[k], i)
        ==> !delivered_from_cluster(actions.take(k), i)
    &&& forall|k1: int, k2: int, i: PieceIndex|
        0 <= k1 < actions.len() && 0 <= k2 < actions.len() && #[trigger] fails(actions[k1], i) && #[trigger] fails(
            actions[k2],
            i,
        ) ==> k1 == k2
    &&& forall|k: int| 0 <= k < actions.len() ==> #[trigger] fail_list_distinct(actions[k])
    &&& s.stage == BatchStage::AskingController ==> forall|i: PieceIndex| #[trigger] s.outstanding.contains(i)
        ==> asked_controller(actions, i)
    &&& forall|k: int, i: PieceIndex| 0 <= k < actions.len() && #[trigger] fails(actions[k], i)
        ==> asked_controller(actions.take(k), i)
}

/// An action that answers indices with an error names each of them once.
pub open spec fn fail_list_distinct<P>(action: BatchActionView<P>) -> bool {
    match action {
        BatchActionView::Fail(failed, _) => failed.no_duplicates(),
        _ => true,
    }
}

proof fn lemma_batch_step_inv<P>(s: BatchFetchView, actions: Seq<BatchActionView<P>>, event: BatchEvent<P>)
    requires
        batch_run_inv(s, actions),
    ensures
        batch_run_inv(batch_transition(s, event).0, actions.push(batch_transition(s, event).1)),
{
    let (t, a) = batch_transition(s, event);
    let pushed = actions.push(a);
    lemma_actions_push(actions, a);
    lemma_asked_push(actions, a);
    lemma_first_occurrences(s.missing);
    if let BatchEvent::Located(_, location) = event {
        lemma_add_location(s.groups, location);
    }
    match event {
        BatchEvent::CachePiece(i, _) => lemma_without(s.outstanding, i),
        BatchEvent::ControllerPiece(i, _) => lemma_without(s.outstanding, i),
        _ => {},
    }
    assert forall|k: int, i: PieceIndex| 0 <= k < pushed.len() && #[trigger] asks_controller_for(pushed[k], i)
        implies !delivered_from_cluster(pushed.take(k), i) by {
        if k < actions.len() {
            assert(pushed[k] == actions[k]);
            assert(pushed.take(k) =~= actions.take(k));
        } else {
            assert(pushed.take(k) =~= actions);
        }
    }
    assert forall|k1: int, k2: int, i: PieceIndex|
        0 <= k1 < pushed.len() && 0 <= k2 < pushed.len() && #[trigger] fails(pushed[k1], i) && #[trigger] fails(
            pushed[k2],
            i,
        ) implies k1 == k2 by {
        if k1 < actions.len() {
            assert(pushed[k1] == actions[k1]);
            assert(failed(actions, i));
        }
        if k2 < actions.len() {
            assert(pushed[k2] == actions[k2]);
            assert(failed(actions, i));
        }
    }
    assert forall|k: int, i: PieceIndex| 0 <= k < pushed.len() && #[trigger] fails(pushed[k], i)
        implies asked_controller(pushed.take(k), i) by {
        if k < actions.len() {
            assert(pushed[k] == actions[k]);
            assert(pushed.take(k) =~= actions.take(k));
        } else {
            assert(pushed.take(k) =~= actions);
        }
    }
    assert forall|k: int| 0 <= k < pushed.len() implies #[trigger] fail_list_distinct(pushed[k]) by {
        if k < actions.len() {
            assert(pushed[k] == actions[k]);
        }
    }
}

proof fn lemma_batch_run_inv<P>(events: Seq<BatchEvent<P>>)
    ensures
        batch_run_inv(batch_run(batch_initial(), events).0, batch_run(batch_initial(), events).1),
    decreases events.len(),
{
    if events.len() == 0 {
        let s = batch_initial();
        assert(s.outstanding =~= Seq::<PieceIndex>::empty());
        assert forall|i: PieceIndex| !#[trigger] failed(Seq::<BatchActionView<P>>::empty(), i) by {}
        assert forall|i: PieceIndex| !#[trigger] delivered_from_cluster(Seq::<BatchActionView<P>>::empty(), i) by {}
    } else {
        lemma_batch_run_inv(events.drop_last());
        let before = batch_run(batch_initial(), events.drop_last());
        lemma_batch_step_inv(before.0, before.1, events.last());
    }
}

/// Whether, among `events`, the farmer cache has said that it answered for every index.
pub open spec fn farmer_cache_done<P>(events: Seq<BatchEvent<P>>) -> bool
    decreases events.len(),
{
    if events.len() == 0 {
        false
    } else {
        farmer_cache_done(events.drop_last()) || events.last() is FarmerCacheDone
    }
}

/// The indices the farmer cache reported it does not have, in the order it
/// reported them, before it said it was done.
pub open spec fn farmer_cache_misses<P>(events: Seq<BatchEvent<P>>) -> Seq<PieceIndex>
    decreases events.len(),
{
    if events.len() == 0 {
        Seq::empty()
    } else {
        let before = farmer_cache_misses(events.drop_last());
        if farmer_cache_done(events.drop_last()) {
            before
        } else {
            match events.last() {
                BatchEvent::FarmerCacheAnswered(i, None) => before.push(i),
                _ => before,
            }
        }
    }
}

proof fn lemma_batch_run_structure<P>(events: Seq<BatchEvent<P>>)
    ensures
        batch_run(batch_initial(), events).1.len() == events.len(),
        (batch_run(batch_initial(), events).0.stage == BatchStage::FarmerCache) == !farmer_cache_done(events),
        batch_run(batch_initial(), events).0.missing == farmer_cache_misses(events),
    decreases events.len(),
{
    if events.len() > 0 {
        lemma_batch_run_structure(events.drop_last());
    }
}

proof fn lemma_batch_run_prefix<P>(events: Seq<BatchEvent<P>>, k: int)
    requires
        0 <= k <= events.len(),
    ensures
        batch_run(batch_initial(), events.take(k)).1 == batch_run(batch_initial(), events).1.take(k),
    decreases events.len(),
{
    lemma_batch_run_structure(events);
    if k == events.len() {
        assert(events.take(k) =~= events);
        assert(batch_run(batch_initial(), events).1.take(k) =~= batch_run(batch_initial(), events).1);
    } else {
        let shorter = events.drop_last();
        lemma_batch_run_prefix(shorter, k);
        lemma_batch_run_structure(shorter);
        assert(shorter.take(k) =~= events.take(k));
        let before = batch_run(batch_initial(), shorter).1;
        let after = batch_run(batch_initial(), events).1;
        assert(after.take(k) =~= before.take(k));
    }
}

proof fn lemma_batch_run_step_at<P>(events: Seq<BatchEvent<P>>, k: int)
    requires
        0 <= k < events.len(),
    ensures
        batch_run(batch_initial(), events).1[k] == batch_transition(
            batch_run(batch_initial(), events.take(k)).0,
            events[k],
        ).1,
{
    lemma_batch_run_prefix(events, k + 1);
    lemma_batch_run_structure(events);
    let prefix = events.take(k + 1);
    assert(prefix.drop_last() =~= events.take(k));
    assert(prefix.last() == events[k]);
    lemma_batch_run_structure(events.take(k));
    let before = batch_run(batch_initial(), events.take(k));
    let t = batch_transition(before.0, events[k]);
    assert(batch_run(batch_initial(), prefix) == (t.0, before.1.push(t.1)));
    assert(before.1.push(t.1)[k] == t.1);
    assert(batch_run(batch_initial(), events).1.take(k + 1)[k] == batch_run(batch_initial(), events).1[k]);
}

proof fn lemma_farmer_cache_misses_prefix<P>(events: Seq<BatchEvent<P>>, j: int, x: PieceIndex)
    requires
        0 <= j <= events.len(),
        farmer_cache_misses(events.take(j)).contains(x),
    ensures
        farmer_cache_misses(events).contains(x),
    decreases events.len(),
{
    if j == events.len() {
        assert(events.take(j) =~= events);
    } else {
        let shorter = events.drop_last();
        assert(shorter.take(j) =~= events.take(j));
        lemma_farmer_cache_misses_prefix(shorter, j, x);
        let before = farmer_cache_misses(shorter);
        let k = choose|k: int| 0 <= k < before.len() && before[k] == x;
        if let BatchEvent::FarmerCacheAnswered(i, None) = events.last() {
            if !farmer_cache_done(shorter) {
                assert(before.push(i)[k] == x);
            }
        }
    }
}

/// Whether, among `events`, the lookup of piece locations is over: after the
/// farmer cache was done, the controller said it reported every location, or
/// the request to locate failed.
pub open spec fn locating_closed<P>(events: Seq<BatchEvent<P>>) -> bool
    decreases events.len(),
{
    if events.len() == 0 {
        false
    } else {
        locating_closed(events.drop_last()) || (farmer_cache_done(events.drop_last()) && (events.last() is LocatingDone
            || events.last() is RequestFailed))
    }
}

/// The offsets the controller reported for cache `cache_id`, in the order it
/// reported them, while pieces were being located.
pub open spec fn located_offsets<P>(events: Seq<BatchEvent<P>>, cache_id: u128) -> Seq<u32>
    decreases events.len(),
{
    if events.len() == 0 {
        Seq::empty()
    } else {
        let before = located_offsets(events.drop_last(), cache_id);
        if farmer_cache_done(events.drop_last()) && !locating_closed(events.drop_last()) {
            match events.last() {
                BatchEvent::Located(_, location) => if location.cache_id == cache_id {
                    before.push(location.offset)
                } else {
                    before
                },
                _ => before,
            }
        } else {
            before
        }
    }
}

proof fn lemma_batch_run_locating<P>(events: Seq<BatchEvent<P>>)
    ensures
        (batch_run(batch_initial(), events).0.stage == BatchStage::Locating) == (farmer_cache_done(events)
            && !locating_closed(events)),
        batch_run(batch_initial(), events).0.stage == BatchStage::FarmerCache || batch_run(
            batch_initial(),
            events,
        ).0.stage == BatchStage::Locating ==> forall|c: u128| #[trigger] offsets_of(batch_run(batch_initial(), events).0.groups, c)
            == located_offsets(events, c),
        distinct_caches(batch_run(batch_initial(), events).0.groups),
        locating_closed(events) ==> farmer_cache_done(events),
        batch_run(batch_initial(), events).0.stage != BatchStage::FarmerCache && batch_run(batch_initial(), events).0.stage
            != BatchStage::Locating ==> locating_closed(events),
    decreases events.len(),
{
    lemma_batch_run_structure(events);
    lemma_batch_run_inv(events);
    if events.len() == 0 {
        assert forall|c: u128| #[trigger] offsets_of(batch_initial().groups, c) == located_offsets(events, c) by {}
    } else {
        let shorter = events.drop_last();
        lemma_batch_run_locating(shorter);
        lemma_batch_run_structure(shorter);
        let s = batch_run(batch_initial(), shorter).0;
        let t = batch_run(batch_initial(), events).0;
        if t.stage == BatchStage::FarmerCache || t.stage == BatchStage::Locating {
            assert forall|c: u128| #[trigger] offsets_of(t.groups, c) == located_offsets(events, c) by {
                if let BatchEvent::Located(_, location) = events.last() {
                    if s.stage == BatchStage::Locating {
                        law_locations_grouped_by_cache(s.groups, location, c);
                    }
                }
            }
        }
    }
}

/// A piece is only ever delivered as it came in: from the farmer cache, from a
/// piece cache, or from the controller, for the index it came in for.
pub proof fn law_batch_delivers_only_what_came_in<P>(s: BatchFetchView, event: BatchEvent<P>, i: PieceIndex, piece: P)
    ensures
        batch_transition(s, event).1 == BatchActionView::DeliverFromFarmerCache(i, piece) ==> event
            == BatchEvent::FarmerCacheAnswered(i, Some(piece)),
        batch_transition(s, event).1 == BatchActionView::StoreThenDeliver(i, piece) ==> event == BatchEvent::CachePiece(
            i,
            piece,
        ),
        batch_transition(s, event).1 == BatchActionView::Deliver(i, piece) ==> event == BatchEvent::ControllerPiece(
            i,
            piece,
        ),
{
}

/// Indices are failed with `ControllerUnreachable` only when the request to the
/// controller failed, and with `NotFound` only when the controller had delivered
/// every piece it has; a failed request to locate pieces fails the whole fetch,
/// and nothing else does.
pub proof fn law_batch_failure_reasons<P>(s: BatchFetchView, event: BatchEvent<P>)
    ensures
        batch_transition(s, event).1 matches BatchActionView::Fail(_, BatchFailure::ControllerUnreachable)
            ==> s.stage == BatchStage::AskingController && event is RequestFailed,
        batch_transition(s, event).1 matches BatchActionView::Fail(_, BatchFailure::NotFound)
            ==> s.stage == BatchStage::AskingController && event is ControllerDone,
        batch_transition(s, event).1 is Abort <==> (s.stage == BatchStage::Locating && event is RequestFailed),
        s.stage == BatchStage::AskingController && (event is RequestFailed || event is ControllerDone)
            ==> (batch_transition(s, event).1 matches BatchActionView::Fail(failed, _) && failed == s.outstanding),
{
}

/// When every piece cache has been read, the fetch is over if nothing is
/// outstanding; otherwise the controller is asked for exactly the outstanding
/// pieces, each once.
pub proof fn law_batch_asks_controller_for_outstanding<P>(s: BatchFetchView)
    requires
        batch_wf(s),
        s.stage == BatchStage::ReadingCaches,
    ensures
        s.outstanding.len() == 0 ==> batch_transition(s, BatchEvent::<P>::CachesDone).1 is Finish,
        s.outstanding.len() > 0 ==> batch_transition(s, BatchEvent::<P>::CachesDone).1 == BatchActionView::<
            P,
        >::AskController(s.outstanding) && s.outstanding.no_duplicates(),
{
}

/// While the piece caches are read, each piece one of them delivers is offered
/// to the farmer cache and delivered for its index, which is then no longer
/// outstanding; while the controller is asked, each piece it delivers is
/// delivered for its index, which is then no longer outstanding.
pub proof fn law_batch_delivers_cluster_pieces<P>(s: BatchFetchView, i: PieceIndex, piece: P)
    ensures
        s.stage == BatchStage::ReadingCaches ==> batch_transition(s, BatchEvent::CachePiece(i, piece)).1
            == BatchActionView::StoreThenDeliver(i, piece) && !batch_transition(
            s,
            BatchEvent::CachePiece(i, piece),
        ).0.outstanding.contains(i),
        s.stage == BatchStage::AskingController ==> batch_transition(s, BatchEvent::ControllerPiece(i, piece)).1
            == BatchActionView::Deliver(i, piece) && !batch_transition(
            s,
            BatchEvent::ControllerPiece(i, piece),
        ).0.outstanding.contains(i),
        s.stage == BatchStage::ReadingCaches || s.stage == BatchStage::AskingController ==> forall|j: PieceIndex|
            j != i ==> (#[trigger] batch_transition(s, BatchEvent::CachePiece(i, piece)).0.outstanding.contains(j)
            <==> s.outstanding.contains(j)),
{
    lemma_without(s.outstanding, i);
}

/// When the controller has reported every location, each piece cache is read
/// once, for exactly the offsets the controller reported for it, in the order
/// it reported them.
pub proof fn law_batch_reads_located_offsets<P>(events: Seq<BatchEvent<P>>, k: int)
    requires
        0 <= k < events.len(),
        events[k] is LocatingDone,
        farmer_cache_done(events.take(k)),
        !locating_closed(events.take(k)),
    ensures
        batch_run(batch_initial(), events).1[k] is ReadCaches,
        distinct_caches(batch_run(batch_initial(), events).1[k]->ReadCaches_0),
        forall|c: u128| #[trigger] offsets_of(batch_run(batch_initial(), events).1[k]->ReadCaches_0, c)
            == located_offsets(events.take(k), c),
{
    lemma_batch_run_step_at(events, k);
    lemma_batch_run_locating(events.take(k));
}

/// Every piece the farmer cache has, while it answers, is delivered at once for
/// its index.
pub proof fn law_batch_farmer_cache_hit_delivered<P>(events: Seq<BatchEvent<P>>, k: int, i: PieceIndex, piece: P)
    requires
        0 <= k < events.len(),
        events[k] == BatchEvent::FarmerCacheAnswered(i, Some(piece)),
        !farmer_cache_done(events.take(k)),
    ensures
        batch_run(batch_initial(), events).1[k] == BatchActionView::DeliverFromFarmerCache(i, piece),
{
    lemma_batch_run_step_at(events, k);
    lemma_batch_run_structure(events.take(k));
}

/// When the farmer cache is done, the controller is asked to locate exactly the
/// pieces the farmer cache reported missing, in the order it reported them.
pub proof fn law_batch_locates_farmer_cache_misses<P>(events: Seq<BatchEvent<P>>, k: int)
    requires
        0 <= k < events.len(),
        events[k] is FarmerCacheDone,
        !farmer_cache_done(events.take(k)),
    ensures
        batch_run(batch_initial(), events).1[k] == BatchActionView::<P>::Locate(farmer_cache_misses(events.take(k))),
{
    lemma_batch_run_step_at(events, k);
    lemma_batch_run_structure(events.take(k));
}

/// Once a batch fetch is finished, every index the farmer cache answered for
/// (with its piece or as missing) has been answered: with a piece or an error.
pub proof fn law_batch_answers_every_requested_index<P>(events: Seq<BatchEvent<P>>, k: int, i: PieceIndex)
    requires
        batch_run(batch_initial(), events).0.stage == BatchStage::Finished,
        0 <= k < events.len(),
        events[k] matches BatchEvent::FarmerCacheAnswered(j, _) && j == i,
        !farmer_cache_done(events.take(k)),
    ensures
        answered(batch_run(batch_initial(), events).1, i),
{
    let actions = batch_run(batch_initial(), events).1;
    lemma_batch_run_structure(events);
    if let BatchEvent::FarmerCacheAnswered(_, Some(piece)) = events[k] {
        law_batch_farmer_cache_hit_delivered(events, k, i, piece);
        assert(answers(actions[k], i));
    } else {
        let prefix = events.take(k + 1);
        assert(prefix.drop_last() =~= events.take(k));
        assert(prefix.last() == events[k]);
        let misses = farmer_cache_misses(prefix);
        assert(misses[misses.len() - 1] == i);
        lemma_farmer_cache_misses_prefix(events, k + 1, i);
        law_batch_answers_every_missing_index(events, i);
    }
}

/// Once a batch fetch is finished, every index that the farmer cache did not
/// have has been answered: with a piece from a piece cache or the controller,
/// or with an error.
pub proof fn law_batch_answers_every_missing_index<P>(events: Seq<BatchEvent<P>>, i: PieceIndex)
    requires
        batch_run(batch_initial(), events).0.stage == BatchStage::Finished,
        batch_run(batch_initial(), events).0.missing.contains(i),
    ensures
        answered(batch_run(batch_initial(), events).1, i),
{
    lemma_batch_run_inv(events);
    let actions = batch_run(batch_initial(), events).1;
    if delivered_from_cluster(actions, i) {
        let k = choose|k: int| 0 <= k < actions.len() && #[trigger] delivers_from_cluster(actions[k], i);
        assert(answers(actions[k], i));
    } else {
        let k = choose|k: int| 0 <= k < actions.len() && #[trigger] fails(actions[k], i);
        assert(answers(actions[k], i));
    }
}

/// Once a batch fetch is finished, each index that the farmer cache did not
/// have was either delivered by a piece cache or the controller, or answered
/// with an error.
pub proof fn law_batch_finished_delivers_or_fails<P>(events: Seq<BatchEvent<P>>, i: PieceIndex)
    requires
        batch_run(batch_initial(), events).0.stage == BatchStage::Finished,
        batch_run(batch_initial(), events).0.missing.contains(i),
    ensures
        delivered_from_cluster(batch_run(batch_initial(), events).1, i) || failed(batch_run(batch_initial(), events).1, i),
{
    lemma_batch_run_inv(events);
}

/// An index is answered with an error at most once: by at most one action, which
/// names it once.
pub proof fn law_batch_error_at_most_once<P>(events: Seq<BatchEvent<P>>, k1: int, k2: int, i: PieceIndex)
    requires
        0 <= k1 < batch_run(batch_initial(), events).1.len(),
        0 <= k2 < batch_run(batch_initial(), events).1.len(),
        fails(batch_run(batch_initial(), events).1[k1], i),
        fails(batch_run(batch_initial(), events).1[k2], i),
    ensures
        k1 == k2,
        fail_list_distinct(batch_run(batch_initial(), events).1[k1]),
{
    lemma_batch_run_inv(events);
}

/// An index is answered with an error only after the controller was asked for
/// its piece: neither a failed lookup in the piece caches nor anything else
/// fails an index without giving the controller its chance.
pub proof fn law_batch_error_only_after_asking_controller<P>(events: Seq<BatchEvent<P>>, k: int, i: PieceIndex)
    requires
        0 <= k < batch_run(batch_initial(), events).1.len(),
        fails(batch_run(batch_initial(), events).1[k], i),
    ensures
        asked_controller(batch_run(batch_initial(), events).1.take(k), i),
{
    lemma_batch_run_inv(events);
}

/// No index is answered with an error after a piece cache or the controller
/// delivered its piece, nor is such a piece delivered after the error.
pub proof fn law_batch_no_error_for_delivered_piece<P>(events: Seq<BatchEvent<P>>, i: PieceIndex)
    requires
        failed(batch_run(batch_initial(), events).1, i),
    ensures
        !delivered_from_cluster(batch_run(batch_initial(), events).1, i),
{
    lemma_batch_run_inv(events);
}

/// The controller is only asked for pieces that no piece cache delivered before.
pub proof fn law_batch_controller_asked_for_undelivered_only<P>(events: Seq<BatchEvent<P>>, k: int, i: PieceIndex)
    requires
        0 <= k < batch_run(batch_initial(), events).1.len(),
        asks_controller_for(batch_run(batch_initial(), events).1[k], i),
    ensures
        !delivered_from_cluster(batch_run(batch_initial(), events).1.take(k), i),
{
    lemma_batch_run_inv(events);
}

impl BatchFetch {
    /// Well-formed state.
    pub open spec fn wf(&self) -> bool {
        batch_wf(self@)
    }

    /// Starts fetching the pieces with these indices: the farmer cache is asked first.
    pub fn new<P>(piece_indices: Vec<PieceIndex>) -> (r: (BatchFetch, BatchAction<P>))
        ensures
            r.0@ == batch_initial(),
            r.0.wf(),
            r.1@ == BatchActionView::<P>::AskFarmerCache(piece_indices@),
    {
        let fetch = BatchFetch {
            stage: BatchStage::FarmerCache,
            missing: Vec::new(),
            groups: Vec::new(),
            outstanding: Vec::new(),
        };
        proof {
            assert(fetch@.missing =~= Seq::<PieceIndex>::empty());
            assert(fetch@.groups =~= Seq::<(u128, Seq<u32>)>::empty());
            assert(fetch@.outstanding =~= Seq::<PieceIndex>::empty());
        }
        (fetch, BatchAction::AskFarmerCache(piece_indices))
    }

    /// The stage the fetch is in.
    pub fn stage(&self) -> (s: BatchStage)
        ensures
            s == self@.stage,
    {
        self.stage
    }

    /// Advances the fetch by the answer that came back.
    pub fn step<P>(&mut self, event: BatchEvent<P>) -> (action: BatchAction<P>)
        requires
            old(self).wf(),
        ensures
            final(self).wf(),
            (final(self)@, action@) == batch_transition(old(self)@, event),
    {
        let ghost s = self@;
        match self.stage {
            BatchStage::FarmerCache => match event {
                BatchEvent::FarmerCacheAnswered(i, Some(piece)) => BatchAction::DeliverFromFarmerCache(i, piece),
                BatchEvent::FarmerCacheAnswered(i, None) => {
                    self.missing.push(i);
                    BatchAction::Nothing
                },
                BatchEvent::FarmerCacheDone => {
                    self.outstanding = distinct_indices(&self.missing);
                    self.stage = BatchStage::Locating;
                    proof {
                        lemma_first_occurrences(s.missing);
                    }
                    BatchAction::Locate(copy_indices(&self.missing))
                },
                _ => BatchAction::Nothing,
            },
            BatchStage::Locating => match event {
                BatchEvent::Located(_, location) => {
                    add_location_to(&mut self.groups, location);
                    BatchAction::Nothing
                },
                BatchEvent::LocatingDone => {
                    let mut groups: Vec<CacheGroup> = Vec::new();
                    core::mem::swap(&mut groups, &mut self.groups);
                    self.stage = BatchStage::ReadingCaches;
                    proof {
                        assert(groups_view(self.groups@) =~= Seq::<(u128, Seq<u32>)>::empty());
                    }
                    BatchAction::ReadCaches(groups)
                },
                BatchEvent::RequestFailed => {
                    self.stage = BatchStage::Aborted;
                    BatchAction::Abort
                },
                _ => BatchAction::Nothing,
            },
            BatchStage::ReadingCaches => match event {
                BatchEvent::CachePiece(i, piece) => {
                    self.outstanding = remove_index(&self.outstanding, i);
                    proof {
                        lemma_without(s.outstanding, i);
                    }
                    BatchAction::StoreThenDeliver(i, piece)
                },
                BatchEvent::CachesDone => if self.outstanding.len() == 0 {
                    self.stage = BatchStage::Finished;
                    BatchAction::Finish
                } else {
                    self.stage = BatchStage::AskingController;
                    BatchAction::AskController(copy_indices(&self.outstanding))
                },
                _ => BatchAction::Nothing,
            },
            BatchStage::AskingController => match event {
                BatchEvent::ControllerPiece(i, piece) => {
                    self.outstanding = remove_index(&self.outstanding, i);
                    proof {
                        lemma_without(s.outstanding, i);
                    }
                    BatchAction::Deliver(i, piece)
                },
                BatchEvent::RequestFailed => {
                    let mut failed: Vec<PieceIndex> = Vec::new();
                    core::mem::swap(&mut failed, &mut self.outstanding);
                    self.stage = BatchStage::Finished;
                    proof {
                        assert(self.outstanding@ =~= Seq::<PieceIndex>::empty());
                    }
                    BatchAction::Fail(failed, BatchFailure::ControllerUnreachable)
                },
                BatchEvent::ControllerDone => {
                    let mut failed: Vec<PieceIndex> = Vec::new();
                    core::mem::swap(&mut failed, &mut self.outstanding);
                    self.stage = BatchStage::Finished;
                    proof {
                        assert(self.outstanding@ =~= Seq::<PieceIndex>::empty());
                    }
                    BatchAction::Fail(failed, BatchFailure::NotFound)
                },
                _ => BatchAction::Nothing,
            },
            BatchStage::Finished => BatchAction::Nothing,
            BatchStage::Aborted => BatchAction::Nothing,
        }
    }
}

/// The answers of a weak getter whose farmer piece getter is gone: each index,
/// in the order asked, without a piece.
pub fn answers_without_getter<P>(piece_indices: &Vec<PieceIndex>) -> (answers: Vec<(PieceIndex, Option<P>)>)
    ensures
        answers.len() == piece_indices.len(),
        forall|k: int| 0 <= k < answers.len() ==> #[trigger] answers[k] == (piece_indices[k], None::<P>),
{
    let mut answers: Vec<(PieceIndex, Option<P>)> = Vec::new();
    let mut i: usize = 0;
    while i < piece_indices.len()
        invariant
            i <= piece_indices.len(),
            answers.len() == i,
            forall|k: int| 0 <= k < i ==> #[trigger] answers[k] == (piece_indices[k], None::<P>),
        decreases piece_indices.len() - i,
    {
        answers.push((piece_indices[i], None));
        i = i + 1;
    }
    answers
}

} // verus!

//! Bins and batch sets: where a phase keeps the entities that it was given,
//! grouped by their keys and held in the order in which they are drawn.

use crate::ids::{Entity, MainEntity};
use crate::phase_item::{OpaqueNoLightmap3dBatchSetKey, OpaqueNoLightmap3dBinKey};
use vstd::prelude::*;

verus! {

/// The entities of one bin.
#[derive(Debug, PartialEq, Eq)]
pub struct RenderBin {
    pub batch_set_key: OpaqueNoLightmap3dBatchSetKey,
    pub bin_key: OpaqueNoLightmap3dBinKey,
    pub entities: Vec<(Entity, MainEntity)>,
}

/// Mathematical content of a [`RenderBin`].
pub struct RenderBinView {
    pub batch_set_key: OpaqueNoLightmap3dBatchSetKey,
    pub bin_key: OpaqueNoLightmap3dBinKey,
    pub entities: Seq<(Entity, MainEntity)>,
}

impl View for RenderBin {
    type V = RenderBinView;

    open spec fn view(&self) -> RenderBinView {
        RenderBinView {
            batch_set_key: self.batch_set_key,
            bin_key: self.bin_key,
            entities: self.entities@,
        }
    }
}

impl DeepView for RenderBin {
    type V = RenderBinView;

    open spec fn deep_view(&self) -> RenderBinView {
        self@
    }
}

impl RenderBinView {
    /// The bin with one more entity.
    pub open spec fn with(self, entity: (Entity, MainEntity)) -> RenderBinView {
        RenderBinView { entities: self.entities.push(entity), ..self }
    }

    /// The bin without the entities that were extracted from `entity`.
    pub open spec fn without(self, entity: MainEntity) -> RenderBinView {
        RenderBinView { entities: without(self.entities, entity), ..self }
    }
}

/// The entities that were not extracted from `entity`, in their order.
pub open spec fn without(entities: Seq<(Entity, MainEntity)>, entity: MainEntity) -> Seq<
    (Entity, MainEntity),
>
    decreases entities.len(),
{
    if entities.len() == 0 {
        entities
    } else if entities.last().1 == entity {
        without(entities.drop_last(), entity)
    } else {
        without(entities.drop_last(), entity).push(entities.last())
    }
}

/// Taking entities out leaves no more than there were.
pub proof fn lemma_without_len(entities: Seq<(Entity, MainEntity)>, entity: MainEntity)
    ensures
        without(entities, entity).len() <= entities.len(),
    decreases entities.len(),
{
    if entities.len() > 0 {
        lemma_without_len(entities.drop_last(), entity);
    }
}

/// Whether the draws of `a` come no later than those of `b`: lower pipeline
/// first, and for one pipeline the lower draw function first.
pub open spec fn sort_key_le(
    a: OpaqueNoLightmap3dBatchSetKey,
    b: OpaqueNoLightmap3dBatchSetKey,
) -> bool {
    a.pipeline.0 < b.pipeline.0 || (a.pipeline.0 == b.pipeline.0 && a.draw_function.0
        <= b.draw_function.0)
}

/// Whether the draws of `a` come no later than those of `b`.
pub fn sort_key_le_exec(a: &OpaqueNoLightmap3dBatchSetKey, b: &OpaqueNoLightmap3dBatchSetKey) -> (r:
    bool)
    ensures
        r == sort_key_le(*a, *b),
{
    a.pipeline.0 < b.pipeline.0 || (a.pipeline.0 == b.pipeline.0 && a.draw_function.0
        <= b.draw_function.0)
}

/// Whether the bin at `index` is the one with the two keys.
pub open spec fn bin_is_at(
    bins: Seq<RenderBinView>,
    batch_set_key: OpaqueNoLightmap3dBatchSetKey,
    bin_key: OpaqueNoLightmap3dBinKey,
    index: int,
) -> bool {
    &&& 0 <= index < bins.len()
    &&& bins[index].batch_set_key == batch_set_key
    &&& bins[index].bin_key == bin_key
}

/// Whether the bins stand in the order in which they are drawn.
pub open spec fn bins_sorted(bins: Seq<RenderBinView>) -> bool {
    forall|i: int, j: int|
        #![trigger bins[i], bins[j]]
        0 <= i < j < bins.len() ==> sort_key_le(bins[i].batch_set_key, bins[j].batch_set_key)
}

/// Whether no two bins have the same keys.
pub open spec fn bins_distinct(bins: Seq<RenderBinView>) -> bool {
    forall|i: int, j: int|
        #![trigger bins[i], bins[j]]
        0 <= i < j < bins.len() ==> !(bins[i].batch_set_key == bins[j].batch_set_key
            && bins[i].bin_key == bins[j].bin_key)
}

/// Whether a new bin for `batch_set_key` belongs at `point`: behind every bin
/// that comes no later, and before every bin that comes later. A new bin
/// thus stands behind the older bins that it ties with.
pub open spec fn bin_insertion_point(
    bins: Seq<RenderBinView>,
    batch_set_key: OpaqueNoLightmap3dBatchSetKey,
    point: int,
) -> bool {
    &&& 0 <= point <= bins.len()
    &&& forall|i: int| 0 <= i < point ==> sort_key_le((#[trigger] bins[i]).batch_set_key, batch_set_key)
    &&& forall|i: int|
        point <= i < bins.len() ==> !sort_key_le((#[trigger] bins[i]).batch_set_key, batch_set_key)
}

/// Number of entities in the bins.
pub open spec fn bins_entities(bins: Seq<RenderBinView>) -> nat
    decreases bins.len(),
{
    if bins.len() == 0 {
        0
    } else {
        bins_entities(bins.drop_last()) + bins.last().entities.len()
    }
}

/// The bins after an entity with the two keys was added: it joins the bin
/// with these keys, or makes a new bin at the place where that belongs.
pub open spec fn bins_add(
    bins: Seq<RenderBinView>,
    batch_set_key: OpaqueNoLightmap3dBatchSetKey,
    bin_key: OpaqueNoLightmap3dBinKey,
    entity: (Entity, MainEntity),
) -> Seq<RenderBinView> {
    if exists|index: int| bin_is_at(bins, batch_set_key, bin_key, index) {
        let index = choose|index: int| bin_is_at(bins, batch_set_key, bin_key, index);
        bins.update(index, bins[index].with(entity))
    } else {
        let point = choose|point: int| bin_insertion_point(bins, batch_set_key, point);
        bins.insert(point, RenderBinView { batch_set_key, bin_key, entities: seq![entity] })
    }
}

/// The bins without the entities that were extracted from `entity`. A bin
/// that loses all its entities stays where it is.
pub open spec fn bins_without(bins: Seq<RenderBinView>, entity: MainEntity) -> Seq<RenderBinView> {
    Seq::new(bins.len(), |i: int| bins[i].without(entity))
}

/// There is one place at most where a new bin belongs.
pub proof fn lemma_bin_insertion_point_unique(
    bins: Seq<RenderBinView>,
    batch_set_key: OpaqueNoLightmap3dBatchSetKey,
    p: int,
    q: int,
)
    requires
        bin_insertion_point(bins, batch_set_key, p),
        bin_insertion_point(bins, batch_set_key, q),
    ensures
        p == q,
{
    if p < q {
        assert(sort_key_le(bins[p].batch_set_key, batch_set_key));
    } else if q < p {
        assert(sort_key_le(bins[q].batch_set_key, batch_set_key));
    }
}

/// Among distinct bins there is one at most with given keys.
pub proof fn lemma_bin_is_at_unique(
    bins: Seq<RenderBinView>,
    batch_set_key: OpaqueNoLightmap3dBatchSetKey,
    bin_key: OpaqueNoLightmap3dBinKey,
    i: int,
    j: int,
)
    requires
        bins_distinct(bins),
        bin_is_at(bins, batch_set_key, bin_key, i),
        bin_is_at(bins, batch_set_key, bin_key, j),
    ensures
        i == j,
{
}

/// The entities of two runs of bins add up.
pub proof fn lemma_bins_entities_add(a: Seq<RenderBinView>, b: Seq<RenderBinView>)
    ensures
        bins_entities(a + b) == bins_entities(a) + bins_entities(b),
    decreases b.len(),
{
    if b.len() > 0 {
        assert((a + b).drop_last() =~= a + b.drop_last());
        lemma_bins_entities_add(a, b.drop_last());
    }
}

/// The entities of a single bin.
pub proof fn lemma_bins_entities_one(bin: RenderBinView)
    ensures
        bins_entities(seq![bin]) == bin.entities.len(),
{
    assert(seq![bin].drop_last() =~= Seq::<RenderBinView>::empty());
    assert(bins_entities(Seq::<RenderBinView>::empty()) == 0);
}

/// A bin inside the bins counts with its entities.
pub proof fn lemma_bins_entities_split(bins: Seq<RenderBinView>, index: int)
    requires
        0 <= index < bins.len(),
    ensures
        bins_entities(bins) == bins_entities(bins.take(index)) + bins[index].entities.len()
            + bins_entities(bins.skip(index + 1)),
{
    assert(bins =~= bins.take(index) + seq![bins[index]] + bins.skip(index + 1));
    lemma_bins_entities_add(bins.take(index) + seq![bins[index]], bins.skip(index + 1));
    lemma_bins_entities_add(bins.take(index), seq![bins[index]]);
    lemma_bins_entities_one(bins[index]);
}

/// The first bins hold no more entities than all of them.
pub proof fn lemma_bins_entities_take(bins: Seq<RenderBinView>, index: int)
    requires
        0 <= index <= bins.len(),
    ensures
        bins_entities(bins.take(index)) <= bins_entities(bins),
{
    assert(bins =~= bins.take(index) + bins.skip(index));
    lemma_bins_entities_add(bins.take(index), bins.skip(index));
}

/// Replacing a bin changes the number of entities by the difference.
pub proof fn lemma_bins_entities_update(bins: Seq<RenderBinView>, index: int, bin: RenderBinView)
    requires
        0 <= index < bins.len(),
    ensures
        bins_entities(bins.update(index, bin)) + bins[index].entities.len() == bins_entities(bins)
            + bin.entities.len(),
{
    let after = bins.update(index, bin);
    lemma_bins_entities_split(bins, index);
    lemma_bins_entities_split(after, index);
    assert(after.take(index) =~= bins.take(index));
    assert(after.skip(index + 1) =~= bins.skip(index + 1));
}

/// A new bin adds its entities.
pub proof fn lemma_bins_entities_insert(bins: Seq<RenderBinView>, point: int, bin: RenderBinView)
    requires
        0 <= point <= bins.len(),
    ensures
        bins_entities(bins.insert(point, bin)) == bins_entities(bins) + bin.entities.len(),
{
    let after = bins.insert(point, bin);
    lemma_bins_entities_split(after, point);
    assert(after.take(point) =~= bins.take(point));
    assert(after.skip(point + 1) =~= bins.skip(point));
    assert(bins =~= bins.take(point) + bins.skip(point));
    lemma_bins_entities_add(bins.take(point), bins.skip(point));
}

/// Bins that lost entities hold no more than they held.
pub proof fn lemma_bins_without_entities(bins: Seq<RenderBinView>, entity: MainEntity)
    ensures
        bins_entities(bins_without(bins, entity)) <= bins_entities(bins),
    decreases bins.len(),
{
    if bins.len() > 0 {
        assert(bins_without(bins, entity).drop_last() =~= bins_without(bins.drop_last(), entity));
        lemma_bins_without_entities(bins.drop_last(), entity);
        lemma_without_len(bins.last().entities, entity);
    }
}

/// Bins that lost entities are in order and distinct as before.
pub proof fn lemma_bins_without_wf(bins: Seq<RenderBinView>, entity: MainEntity)
    ensures
        bins_sorted(bins) ==> bins_sorted(bins_without(bins, entity)),
        bins_distinct(bins) ==> bins_distinct(bins_without(bins, entity)),
{
    let after = bins_without(bins, entity);
    if bins_sorted(bins) {
        assert forall|i: int, j: int|
            #![trigger after[i], after[j]]
            0 <= i < j < after.len() implies sort_key_le(
            after[i].batch_set_key,
            after[j].batch_set_key,
        ) by {}
    }
    if bins_distinct(bins) {
        assert forall|i: int, j: int|
            #![trigger after[i], after[j]]
            0 <= i < j < after.len() implies !(after[i].batch_set_key == after[j].batch_set_key
            && after[i].bin_key == after[j].bin_key) by {}
    }
}

/// Adding an entity keeps the bins in order and distinct, and adds one
/// entity.
pub proof fn lemma_bins_add(
    bins: Seq<RenderBinView>,
    batch_set_key: OpaqueNoLightmap3dBatchSetKey,
    bin_key: OpaqueNoLightmap3dBinKey,
    entity: (Entity, MainEntity),
)
    requires
        bins_sorted(bins),
        bins_distinct(bins),
        exists|point: int| bin_insertion_point(bins, batch_set_key, point),
    ensures
        bins_sorted(bins_add(bins, batch_set_key, bin_key, entity)),
        bins_distinct(bins_add(bins, batch_set_key, bin_key, entity)),
        bins_entities(bins_add(bins, batch_set_key, bin_key, entity)) == bins_entities(bins) + 1,
{
    let after = bins_add(bins, batch_set_key, bin_key, entity);
    if exists|index: int| bin_is_at(bins, batch_set_key, bin_key, index) {
        let index = choose|index: int| bin_is_at(bins, batch_set_key, bin_key, index);
        lemma_bins_entities_update(bins, index, bins[index].with(entity));
        assert forall|i: int, j: int|
            #![trigger after[i], after[j]]
            0 <= i < j < after.len() implies sort_key_le(
            after[i].batch_set_key,
            after[j].batch_set_key,
        ) && !(after[i].batch_set_key == after[j].batch_set_key && after[i].bin_key
            == after[j].bin_key) by {}
    } else {
        let point = choose|point: int| bin_insertion_point(bins, batch_set_key, point);
        let bin = RenderBinView { batch_set_key, bin_key, entities: seq![entity] };
        lemma_bins_entities_insert(bins, point, bin);
        assert forall|i: int, j: int|
            #![trigger after[i], after[j]]
            0 <= i < j < after.len() implies sort_key_le(
            after[i].batch_set_key,
            after[j].batch_set_key,
        ) && !(after[i].batch_set_key == after[j].batch_set_key && after[i].bin_key
            == after[j].bin_key) by {
            // The bins on either side of the new one are the old ones.
            if i != point {
                let old = if i < point {
                    i
                } else {
                    i - 1
                };
                assert(after[i] == bins[old]);
                assert(!bin_is_at(bins, batch_set_key, bin_key, old));
            }
        }
    }
}

/// The place where a new bin for `batch_set_key` belongs.
pub(crate) fn find_bin_insertion_point(
    bins: &Vec<RenderBin>,
    batch_set_key: &OpaqueNoLightmap3dBatchSetKey,
) -> (point: usize)
    requires
        bins_sorted(bins.deep_view()),
    ensures
        bin_insertion_point(bins.deep_view(), *batch_set_key, point as int),
{
    let n = bins.len();
    let mut i: usize = 0;
    while i < n && sort_key_le_exec(&bins[i].batch_set_key, batch_set_key)
        invariant
            n == bins.len(),
            i <= n,
            bins_sorted(bins.deep_view()),
            forall|j: int|
                0 <= j < i ==> sort_key_le(
                    (#[trigger] bins.deep_view()[j]).batch_set_key,
                    *batch_set_key,
                ),
        decreases n - i,
    {
        i += 1;
    }
    proof {
        let view = bins.deep_view();
        assert forall|j: int| i <= j < view.len() implies !sort_key_le(
            (#[trigger] view[j]).batch_set_key,
            *batch_set_key,
        ) by {
            assert(!sort_key_le(view[i as int].batch_set_key, *batch_set_key));
        }
    }
    i
}

/// The position of the bin with the two keys.
pub(crate) fn find_bin(
    bins: &Vec<RenderBin>,
    batch_set_key: &OpaqueNoLightmap3dBatchSetKey,
    bin_key: &OpaqueNoLightmap3dBinKey,
) -> (r: Option<usize>)
    ensures
        match r {
            Some(index) => bin_is_at(bins.deep_view(), *batch_set_key, *bin_key, index as int),
            None => forall|index: int|
                !bin_is_at(bins.deep_view(), *batch_set_key, *bin_key, index),
        },
{
    let n = bins.len();
    let mut i: usize = 0;
    while i < n
        invariant
            n == bins.len(),
            i <= n,
            forall|j: int| 0 <= j < i ==> !bin_is_at(bins.deep_view(), *batch_set_key, *bin_key, j),
        decreases n - i,
    {
        if bins[i].batch_set_key == *batch_set_key && bins[i].bin_key == *bin_key {
            return Some(i);
        }
        i += 1;
    }
    None
}

/// Adds an entity with the two keys to the bins.
pub(crate) fn add_to_bins(
    bins: &mut Vec<RenderBin>,
    batch_set_key: OpaqueNoLightmap3dBatchSetKey,
    bin_key: OpaqueNoLightmap3dBinKey,
    entity: (Entity, MainEntity),
)
    requires
        bins_sorted(old(bins).deep_view()),
        bins_distinct(old(bins).deep_view()),
    ensures
        final(bins).deep_view() == bins_add(old(bins).deep_view(), batch_set_key, bin_key, entity),
        bins_sorted(final(bins).deep_view()),
        bins_distinct(final(bins).deep_view()),
        bins_entities(final(bins).deep_view()) == bins_entities(old(bins).deep_view()) + 1,
{
    let ghost before = bins.deep_view();
    let point = find_bin_insertion_point(bins, &batch_set_key);
    proof {
        lemma_bins_add(before, batch_set_key, bin_key, entity);
    }
    match find_bin(bins, &batch_set_key, &bin_key) {
        Some(index) => {
            proof {
                let chosen = choose|index: int| bin_is_at(before, batch_set_key, bin_key, index);
                lemma_bin_is_at_unique(before, batch_set_key, bin_key, index as int, chosen);
            }
            let bin = &mut bins[index];
            bin.entities.push(entity);
        },
        None => {
            proof {
                let chosen = choose|point: int| bin_insertion_point(before, batch_set_key, point);
                lemma_bin_insertion_point_unique(before, batch_set_key, point as int, chosen);
            }
            let mut entities: Vec<(Entity, MainEntity)> = Vec::new();
            entities.push(entity);
            bins.insert(point, RenderBin { batch_set_key, bin_key, entities });
        },
    }
}

/// The bins of the draws that one multi-draw call can cover.
#[derive(Debug, PartialEq, Eq)]
pub struct BatchSet {
    pub key: OpaqueNoLightmap3dBatchSetKey,
    /// The bins of the set, in the order in which they were first used.
    pub bins: Vec<RenderBin>,
}

/// Mathematical content of a [`BatchSet`].
pub struct BatchSetView {
    pub key: OpaqueNoLightmap3dBatchSetKey,
    pub bins: Seq<RenderBinView>,
}

impl View for BatchSet {
    type V = BatchSetView;

    open spec fn view(&self) -> BatchSetView {
        BatchSetView { key: self.key, bins: self.bins.deep_view() }
    }
}

impl DeepView for BatchSet {
    type V = BatchSetView;

    open spec fn deep_view(&self) -> BatchSetView {
        self@
    }
}

impl BatchSetView {
    /// The bins of the set are distinct and carry the key of the set.
    pub open spec fn wf(self) -> bool {
        &&& bins_distinct(self.bins)
        &&& forall|i: int| 0 <= i < self.bins.len() ==> (#[trigger] self.bins[i]).batch_set_key == self.key
    }

    /// The set with one more entity in the bin `bin_key`.
    pub open spec fn with(self, bin_key: OpaqueNoLightmap3dBinKey, entity: (Entity, MainEntity)) -> BatchSetView {
        BatchSetView { bins: bins_add(self.bins, self.key, bin_key, entity), ..self }
    }

    /// The set without the entities that were extracted from `entity`.
    pub open spec fn without(self, entity: MainEntity) -> BatchSetView {
        BatchSetView { bins: bins_without(self.bins, entity), ..self }
    }

    /// In a set, a new bin belongs at the end.
    pub proof fn lemma_insertion_point(self)
        requires
            self.wf(),
        ensures
            bins_sorted(self.bins),
            bin_insertion_point(self.bins, self.key, self.bins.len() as int),
    {
    }

    /// Adding an entity keeps the set well formed and adds one entity.
    pub proof fn lemma_with(self, bin_key: OpaqueNoLightmap3dBinKey, entity: (Entity, MainEntity))
        requires
            self.wf(),
        ensures
            self.with(bin_key, entity).wf(),
            bins_entities(self.with(bin_key, entity).bins) == bins_entities(self.bins) + 1,
    {
        self.lemma_insertion_point();
        lemma_bins_add(self.bins, self.key, bin_key, entity);
        let after = self.with(bin_key, entity).bins;
        assert forall|i: int| 0 <= i < after.len() implies (#[trigger] after[i]).batch_set_key
            == self.key by {}
    }
}

/// Whether the set at `index` is the one with the key.
pub open spec fn set_is_at(
    sets: Seq<BatchSetView>,
    key: OpaqueNoLightmap3dBatchSetKey,
    index: int,
) -> bool {
    &&& 0 <= index < sets.len()
    &&& sets[index].key == key
}

/// Whether the sets stand in the order in which they are drawn.
pub open spec fn sets_sorted(sets: Seq<BatchSetView>) -> bool {
    forall|i: int, j: int|
        #![trigger sets[i], sets[j]]
        0 <= i < j < sets.len() ==> sort_key_le(sets[i].key, sets[j].key)
}

/// Whether no two sets have the same key.
pub open spec fn sets_distinct(sets: Seq<BatchSetView>) -> bool {
    forall|i: int, j: int|
        #![trigger sets[i], sets[j]]
        0 <= i < j < sets.len() ==> sets[i].key != sets[j].key
}

/// Whether the sets are in order, distinct and each well formed.
pub open spec fn sets_wf(sets: Seq<BatchSetView>) -> bool {
    &&& sets_sorted(sets)
    &&& sets_distinct(sets)
    &&& forall|i: int| 0 <= i < sets.len() ==> (#[trigger] sets[i]).wf()
}

/// Whether a new set for `key` belongs at `point`: behind every set that
/// comes no later, and before every set that comes later.
pub open spec fn set_insertion_point(
    sets: Seq<BatchSetView>,
    key: OpaqueNoLightmap3dBatchSetKey,
    point: int,
) -> bool {
    &&& 0 <= point <= sets.len()
    &&& forall|i: int| 0 <= i < point ==> sort_key_le((#[trigger] sets[i]).key, key)
    &&& forall|i: int| point <= i < sets.len() ==> !sort_key_le((#[trigger] sets[i]).key, key)
}

/// Number of entities in the sets.
pub open spec fn sets_entities(sets: Seq<BatchSetView>) -> nat
    decreases sets.len(),
{
    if sets.len() == 0 {
        0
    } else {
        sets_entities(sets.drop_last()) + bins_entities(sets.last().bins)
    }
}

/// The sets after an entity with the two keys was added: it joins the set
/// with its batch set key, or makes a new set at the place where that
/// belongs.
pub open spec fn sets_add(
    sets: Seq<BatchSetView>,
    batch_set_key: OpaqueNoLightmap3dBatchSetKey,
    bin_key: OpaqueNoLightmap3dBinKey,
    entity: (Entity, MainEntity),
) -> Seq<BatchSetView> {
    if exists|index: int| set_is_at(sets, batch_set_key, index) {
        let index = choose|index: int| set_is_at(sets, batch_set_key, index);
        sets.update(index, sets[index].with(bin_key, entity))
    } else {
        let point = choose|point: int| set_insertion_point(sets, batch_set_key, point);
        sets.insert(
            point,
            BatchSetView {
                key: batch_set_key,
                bins: seq![RenderBinView { batch_set_key, bin_key, entities: seq![entity] }],
            },
        )
    }
}

/// The sets without the entities that were extracted from `entity`.
pub open spec fn sets_without(sets: Seq<BatchSetView>, entity: MainEntity) -> Seq<BatchSetView> {
    Seq::new(sets.len(), |i: int| sets[i].without(entity))
}

/// There is one place at most where a new set belongs.
pub proof fn lemma_set_insertion_point_unique(
    sets: Seq<BatchSetView>,
    key: OpaqueNoLightmap3dBatchSetKey,
    p: int,
    q: int,
)
    requires
        set_insertion_point(sets, key, p),
        set_insertion_point(sets, key, q),
    ensures
        p == q,
{
    if p < q {
        assert(sort_key_le(sets[p].key, key));
    } else if q < p {
        assert(sort_key_le(sets[q].key, key));
    }
}

/// Among distinct sets there is one at most with a given key.
pub proof fn lemma_set_is_at_unique(
    sets: Seq<BatchSetView>,
    key: OpaqueNoLightmap3dBatchSetKey,
    i: int,
    j: int,
)
    requires
        sets_distinct(sets),
        set_is_at(sets, key, i),
        set_is_at(sets, key, j),
    ensures
        i == j,
{
    if j < i {
        assert(sets[j].key != sets[i].key);
    }
}

/// The entities of two runs of sets add up.
pub proof fn lemma_sets_entities_add(a: Seq<BatchSetView>, b: Seq<BatchSetView>)
    ensures
        sets_entities(a + b) == sets_entities(a) + sets_entities(b),
    decreases b.len(),
{
    if b.len() > 0 {
        assert((a + b).drop_last() =~= a + b.drop_last());
        lemma_sets_entities_add(a, b.drop_last());
    }
}

/// A set inside the sets counts with its entities.
pub proof fn lemma_sets_entities_split(sets: Seq<BatchSetView>, index: int)
    requires
        0 <= index < sets.len(),
    ensures
        sets_entities(sets) == sets_entities(sets.take(index)) + bins_entities(sets[index].bins)
            + sets_entities(sets.skip(index + 1)),
{
    let one = seq![sets[index]];
    assert(sets =~= sets.take(index) + one + sets.skip(index + 1));
    lemma_sets_entities_add(sets.take(index) + one, sets.skip(index + 1));
    lemma_sets_entities_add(sets.take(index), one);
    assert(one.drop_last() =~= Seq::<BatchSetView>::empty());
    assert(sets_entities(Seq::<BatchSetView>::empty()) == 0);
}

/// The first sets hold no more entities than all of them.
pub proof fn lemma_sets_entities_take(sets: Seq<BatchSetView>, index: int)
    requires
        0 <= index <= sets.len(),
    ensures
        sets_entities(sets.take(index)) <= sets_entities(sets),
{
    assert(sets =~= sets.take(index) + sets.skip(index));
    lemma_sets_entities_add(sets.take(index), sets.skip(index));
}

/// Sets that lost entities hold no more than they held.
pub proof fn lemma_sets_without_entities(sets: Seq<BatchSetView>, entity: MainEntity)
    ensures
        sets_entities(sets_without(sets, entity)) <= sets_entities(sets),
    decreases sets.len(),
{
    if sets.len() > 0 {
        assert(sets_without(sets, entity).drop_last() =~= sets_without(sets.drop_last(), entity));
        lemma_sets_without_entities(sets.drop_last(), entity);
        lemma_bins_without_entities(sets.last().bins, entity);
    }
}

/// Sets that lost entities are well formed as before.
pub proof fn lemma_sets_without_wf(sets: Seq<BatchSetView>, entity: MainEntity)
    requires
        sets_wf(sets),
    ensures
        sets_wf(sets_without(sets, entity)),
{
    let after = sets_without(sets, entity);
    assert forall|i: int, j: int|
        #![trigger after[i], after[j]]
        0 <= i < j < after.len() implies sort_key_le(after[i].key, after[j].key) && after[i].key
        != after[j].key by {}
    assert forall|i: int| 0 <= i < after.len() implies (#[trigger] after[i]).wf() by {
        lemma_bins_without_wf(sets[i].bins, entity);
        let bins = after[i].bins;
        assert forall|k: int| 0 <= k < bins.len() implies (#[trigger] bins[k]).batch_set_key
            == after[i].key by {}
    }
}

/// Adding an entity keeps the sets well formed and adds one entity.
pub proof fn lemma_sets_add(
    sets: Seq<BatchSetView>,
    batch_set_key: OpaqueNoLightmap3dBatchSetKey,
    bin_key: OpaqueNoLightmap3dBinKey,
    entity: (Entity, MainEntity),
)
    requires
        sets_wf(sets),
        exists|point: int| set_insertion_point(sets, batch_set_key, point),
    ensures
        sets_wf(sets_add(sets, batch_set_key, bin_key, entity)),
        sets_entities(sets_add(sets, batch_set_key, bin_key, entity)) == sets_entities(sets) + 1,
{
    let after = sets_add(sets, batch_set_key, bin_key, entity);
    if exists|index: int| set_is_at(sets, batch_set_key, index) {
        let index = choose|index: int| set_is_at(sets, batch_set_key, index);
        sets[index].lemma_with(bin_key, entity);
        lemma_sets_entities_split(sets, index);
        lemma_sets_entities_split(after, index);
        assert(after.take(index) =~= sets.take(index));
        assert(after.skip(index + 1) =~= sets.skip(index + 1));
        assert forall|i: int, j: int|
            #![trigger after[i], after[j]]
            0 <= i < j < after.len() implies sort_key_le(after[i].key, after[j].key) && after[i].key
            != after[j].key by {}
        assert forall|i: int| 0 <= i < after.len() implies (#[trigger] after[i]).wf() by {}
    } else {
        let point = choose|point: int| set_insertion_point(sets, batch_set_key, point);
        lemma_bins_entities_one(RenderBinView { batch_set_key, bin_key, entities: seq![entity] });
        lemma_sets_entities_split(after, point);
        assert(after.take(point) =~= sets.take(point));
        assert(after.skip(point + 1) =~= sets.skip(point));
        assert(sets =~= sets.take(point) + sets.skip(point));
        lemma_sets_entities_add(sets.take(point), sets.skip(point));
        assert forall|i: int, j: int|
            #![trigger after[i], after[j]]
            0 <= i < j < after.len() implies sort_key_le(after[i].key, after[j].key) && after[i].key
            != after[j].key by {
            // No set beside the new one has its key.
            if i != point {
                let old = if i < point {
                    i
                } else {
                    i - 1
                };
                assert(!set_is_at(sets, batch_set_key, old));
            }
        }
        assert forall|i: int| 0 <= i < after.len() implies (#[trigger] after[i]).wf() by {}
    }
}

/// The place where a new set for `key` belongs.
pub(crate) fn find_set_insertion_point(sets: &Vec<BatchSet>, key: &OpaqueNoLightmap3dBatchSetKey) -> (point:
    usize)
    requires
        sets_sorted(sets.deep_view()),
    ensures
        set_insertion_point(sets.deep_view(), *key, point as int),
{
    let n = sets.len();
    let mut i: usize = 0;
    while i < n && sort_key_le_exec(&sets[i].key, key)
        invariant
            n == sets.len(),
            i <= n,
            sets_sorted(sets.deep_view()),
            forall|j: int| 0 <= j < i ==> sort_key_le((#[trigger] sets.deep_view()[j]).key, *key),
        decreases n - i,
    {
        i += 1;
    }
    proof {
        let view = sets.deep_view();
        assert forall|j: int| i <= j < view.len() implies !sort_key_le(
            (#[trigger] view[j]).key,
            *key,
        ) by {
            assert(!sort_key_le(view[i as int].key, *key));
        }
    }
    i
}

/// The position of the set with the key.
pub(crate) fn find_set(sets: &Vec<BatchSet>, key: &OpaqueNoLightmap3dBatchSetKey) -> (r: Option<usize>)
    ensures
        match r {
            Some(index) => set_is_at(sets.deep_view(), *key, index as int),
            None => forall|index: int| !set_is_at(sets.deep_view(), *key, index),
        },
{
    let n = sets.len();
    let mut i: usize = 0;
    while i < n
        invariant
            n == sets.len(),
            i <= n,
            forall|j: int| 0 <= j < i ==> !set_is_at(sets.deep_view(), *key, j),
        decreases n - i,
    {
        if sets[i].key == *key {
            return Some(i);
        }
        i += 1;
    }
    None
}

/// Adds an entity with the two keys to the sets.
pub(crate) fn add_to_sets(
    sets: &mut Vec<BatchSet>,
    batch_set_key: OpaqueNoLightmap3dBatchSetKey,
    bin_key: OpaqueNoLightmap3dBinKey,
    entity: (Entity, MainEntity),
)
    requires
        sets_wf(old(sets).deep_view()),
    ensures
        final(sets).deep_view() == sets_add(old(sets).deep_view(), batch_set_key, bin_key, entity),
        sets_wf(final(sets).deep_view()),
        sets_entities(final(sets).deep_view()) == sets_entities(old(sets).deep_view()) + 1,
{
    let ghost before = sets.deep_view();
    let point = find_set_insertion_point(sets, &batch_set_key);
    proof {
        lemma_sets_add(before, batch_set_key, bin_key, entity);
    }
    match find_set(sets, &batch_set_key) {
        Some(index) => {
            proof {
                let chosen = choose|index: int| set_is_at(before, batch_set_key, index);
                lemma_set_is_at_unique(before, batch_set_key, index as int, chosen);
                before[index as int].lemma_insertion_point();
            }
            let set = &mut sets[index];
            add_to_bins(&mut set.bins, batch_set_key, bin_key, entity);
        },
        None => {
            proof {
                let chosen = choose|point: int| set_insertion_point(before, batch_set_key, point);
                lemma_set_insertion_point_unique(before, batch_set_key, point as int, chosen);
            }
            let mut entities: Vec<(Entity, MainEntity)> = Vec::new();
            entities.push(entity);
            let mut bins: Vec<RenderBin> = Vec::new();
            bins.push(RenderBin { batch_set_key, bin_key, entities });
            assert(bins.deep_view() =~= seq![
                RenderBinView { batch_set_key, bin_key, entities: seq![entity] },
            ]);
            sets.insert(point, BatchSet { key: batch_set_key, bins });
        },
    }
}

} // verus!

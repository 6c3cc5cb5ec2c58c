//! The binned phase of one view: the entities that extraction handed in,
//! held in three tiers, and the items that the phase draws for them.

use crate::bins::{
    add_to_bins,
    add_to_sets,
    bins_add,
    bins_distinct,
    bins_entities,
    bins_sorted,
    bins_without,
    lemma_bins_entities_take,
    lemma_bins_without_entities,
    lemma_bins_without_wf,
    lemma_sets_entities_take,
    lemma_sets_without_entities,
    lemma_sets_without_wf,
    sets_add,
    sets_entities,
    sets_without,
    without,
    sets_wf,
    BatchSet,
    BatchSetView,
    RenderBin,
    RenderBinView,
};
use crate::ids::{Entity, MainEntity};
use crate::phase_item::{
    BinnedPhaseItem,
    DrawItem,
    OpaqueNoLightmap3dBatchSetKey,
    OpaqueNoLightmap3dBinKey,
    PhaseItem,
    PhaseItemExtraIndex,
};
use core::marker::PhantomData;
use core::ops::Range;
use vstd::prelude::*;

verus! {

/// The tier of a phase that an entity is placed in.
#[derive(Clone, Copy, Debug, PartialEq, Eq, Hash, Structural)]
pub enum BinnedRenderPhaseType {
    /// The entity is a mesh that can be drawn with others of its batch set in
    /// one indirect multi-draw call.
    MultidrawableMesh,
    /// The entity is a mesh that can be drawn with the others of its bin in
    /// one draw call.
    BatchableMesh,
    /// The entity is a mesh that is drawn in a draw call of its own.
    UnbatchableMesh,
}

/// Number of bins that hold an entity.
pub open spec fn bins_nonempty(bins: Seq<RenderBinView>) -> nat
    decreases bins.len(),
{
    if bins.len() == 0 {
        0
    } else {
        bins_nonempty(bins.drop_last()) + if bins.last().entities.len() > 0 {
            1nat
        } else {
            0nat
        }
    }
}

/// Number of bins in the sets that hold an entity.
pub open spec fn sets_nonempty_bins(sets: Seq<BatchSetView>) -> nat
    decreases sets.len(),
{
    if sets.len() == 0 {
        0
    } else {
        sets_nonempty_bins(sets.drop_last()) + bins_nonempty(sets.last().bins)
    }
}

/// Number of sets that hold an entity.
pub open spec fn sets_nonempty(sets: Seq<BatchSetView>) -> nat
    decreases sets.len(),
{
    if sets.len() == 0 {
        0
    } else {
        sets_nonempty(sets.drop_last()) + if bins_entities(sets.last().bins) > 0 {
            1nat
        } else {
            0nat
        }
    }
}

/// Whether the bin at `index` is the first that holds an entity.
pub open spec fn is_first_nonempty(bins: Seq<RenderBinView>, index: int) -> bool {
    &&& 0 <= index < bins.len()
    &&& bins[index].entities.len() > 0
    &&& forall|j: int| 0 <= j < index ==> (#[trigger] bins[j]).entities.len() == 0
}

/// The item that draws the set in one indirect multi-draw call: it stands
/// for the first bin that holds an entity, covers the instances of the whole
/// set and one indirect parameter for each bin that holds an entity.
pub open spec fn multidraw_item(set: BatchSetView, instance: nat, indirect: nat, index: nat) -> DrawItem {
    let first = set.bins[choose|first: int| is_first_nonempty(set.bins, first)];
    DrawItem {
        batch_set_key: set.key,
        bin_key: first.bin_key,
        representative_entity: first.entities[0],
        batch_range: Range {
            start: instance as u32,
            end: (instance + bins_entities(set.bins)) as u32,
        },
        extra_index: PhaseItemExtraIndex::IndirectParametersIndex {
            range: Range {
                start: indirect as u32,
                end: (indirect + bins_nonempty(set.bins)) as u32,
            },
            batch_set_index: Some(index as u32),
        },
    }
}

/// The items of the multidrawable tier: one for each set that holds an
/// entity. Instances, indirect parameters and batch sets are numbered in the
/// order of the sets.
pub open spec fn multidraw_items(sets: Seq<BatchSetView>) -> Seq<DrawItem>
    decreases sets.len(),
{
    if sets.len() == 0 {
        Seq::empty()
    } else {
        let before = sets.drop_last();
        multidraw_items(before) + if bins_entities(sets.last().bins) > 0 {
            seq![
                multidraw_item(
                    sets.last(),
                    sets_entities(before),
                    sets_nonempty_bins(before),
                    sets_nonempty(before),
                ),
            ]
        } else {
            Seq::empty()
        }
    }
}

/// The item that draws the bin in one draw call: it stands for the first
/// entity of the bin and covers one instance for each of its entities.
pub open spec fn batch_item(bin: RenderBinView, instance: nat) -> DrawItem {
    DrawItem {
        batch_set_key: bin.batch_set_key,
        bin_key: bin.bin_key,
        representative_entity: bin.entities[0],
        batch_range: Range { start: instance as u32, end: (instance + bin.entities.len()) as u32 },
        extra_index: PhaseItemExtraIndex::Absent,
    }
}

/// The items of the batchable tier: one for each bin that holds an entity.
/// Instances are numbered from `first_instance` in the order of the bins.
pub open spec fn batch_items(bins: Seq<RenderBinView>, first_instance: nat) -> Seq<DrawItem>
    decreases bins.len(),
{
    if bins.len() == 0 {
        Seq::empty()
    } else {
        let before = bins.drop_last();
        batch_items(before, first_instance) + if bins.last().entities.len() > 0 {
            seq![batch_item(bins.last(), first_instance + bins_entities(before))]
        } else {
            Seq::empty()
        }
    }
}

/// The item that draws the entity at `position` of the bin by itself.
pub open spec fn single_item(bin: RenderBinView, position: int, instance: nat) -> DrawItem {
    DrawItem {
        batch_set_key: bin.batch_set_key,
        bin_key: bin.bin_key,
        representative_entity: bin.entities[position],
        batch_range: Range { start: instance as u32, end: (instance + 1) as u32 },
        extra_index: PhaseItemExtraIndex::Absent,
    }
}

/// The items of one bin of the unbatchable tier: one for each entity.
pub open spec fn bin_single_items(bin: RenderBinView, first_instance: nat) -> Seq<DrawItem> {
    Seq::new(
        bin.entities.len(),
        |position: int| single_item(bin, position, (first_instance + position) as nat),
    )
}

/// The items of the unbatchable tier: one for each entity. Instances are
/// numbered from `first_instance` in the order of the bins and of the
/// entities in them.
pub open spec fn single_items(bins: Seq<RenderBinView>, first_instance: nat) -> Seq<DrawItem>
    decreases bins.len(),
{
    if bins.len() == 0 {
        Seq::empty()
    } else {
        let before = bins.drop_last();
        single_items(before, first_instance) + bin_single_items(
            bins.last(),
            first_instance + bins_entities(before),
        )
    }
}

/// No more bins hold an entity than there are entities.
pub proof fn lemma_bins_nonempty_le(bins: Seq<RenderBinView>)
    ensures
        bins_nonempty(bins) <= bins_entities(bins),
        bins_entities(bins) > 0 ==> bins_nonempty(bins) > 0,
    decreases bins.len(),
{
    if bins.len() > 0 {
        lemma_bins_nonempty_le(bins.drop_last());
    }
}

/// No more sets and no more bins of them hold an entity than there are
/// entities.
pub proof fn lemma_sets_nonempty_le(sets: Seq<BatchSetView>)
    ensures
        sets_nonempty_bins(sets) <= sets_entities(sets),
        sets_nonempty(sets) <= sets_entities(sets),
    decreases sets.len(),
{
    if sets.len() > 0 {
        lemma_sets_nonempty_le(sets.drop_last());
        lemma_bins_nonempty_le(sets.last().bins);
    }
}

/// Bins that hold no entity give no item of the batchable tier, and none of
/// the unbatchable tier.
pub proof fn lemma_no_entities_no_bin_items(bins: Seq<RenderBinView>, first_instance: nat)
    requires
        bins_entities(bins) == 0,
    ensures
        batch_items(bins, first_instance) == Seq::<DrawItem>::empty(),
        single_items(bins, first_instance) == Seq::<DrawItem>::empty(),
    decreases bins.len(),
{
    if bins.len() > 0 {
        lemma_no_entities_no_bin_items(bins.drop_last(), first_instance);
    }
}

/// Sets that hold no entity give no item.
pub proof fn lemma_no_entities_no_multidraw_items(sets: Seq<BatchSetView>)
    requires
        sets_entities(sets) == 0,
    ensures
        multidraw_items(sets) == Seq::<DrawItem>::empty(),
    decreases sets.len(),
{
    if sets.len() > 0 {
        lemma_no_entities_no_multidraw_items(sets.drop_last());
    }
}

/// Every item of the batchable tier covers an instance at least.
pub proof fn lemma_batch_items_cover(bins: Seq<RenderBinView>, first_instance: nat, k: int)
    requires
        first_instance + bins_entities(bins) <= u32::MAX,
        0 <= k < batch_items(bins, first_instance).len(),
    ensures
        batch_items(bins, first_instance)[k].batch_range.start < batch_items(
            bins,
            first_instance,
        )[k].batch_range.end,
    decreases bins.len(),
{
    if bins.len() > 0 {
        let before = bins.drop_last();
        if k < batch_items(before, first_instance).len() {
            lemma_batch_items_cover(before, first_instance, k);
        }
    }
}

/// Every item of the unbatchable tier covers one instance.
pub proof fn lemma_single_items_cover(bins: Seq<RenderBinView>, first_instance: nat, k: int)
    requires
        first_instance + bins_entities(bins) <= u32::MAX,
        0 <= k < single_items(bins, first_instance).len(),
    ensures
        single_items(bins, first_instance)[k].batch_range.start < single_items(
            bins,
            first_instance,
        )[k].batch_range.end,
    decreases bins.len(),
{
    if bins.len() > 0 {
        let before = bins.drop_last();
        if k < single_items(before, first_instance).len() {
            lemma_single_items_cover(before, first_instance, k);
        }
    }
}

/// Every item of the multidrawable tier covers an instance at least.
pub proof fn lemma_multidraw_items_cover(sets: Seq<BatchSetView>, k: int)
    requires
        sets_entities(sets) <= u32::MAX,
        0 <= k < multidraw_items(sets).len(),
    ensures
        multidraw_items(sets)[k].batch_range.start < multidraw_items(sets)[k].batch_range.end,
    decreases sets.len(),
{
    if sets.len() > 0 {
        let before = sets.drop_last();
        if k < multidraw_items(before).len() {
            lemma_multidraw_items_cover(before, k);
        }
    }
}

/// A bin without entities, wherever it stands among the bins, gives no item
/// and takes no instance: the items are those of the other bins.
pub proof fn theorem_empty_bin_gives_no_item(
    bins: Seq<RenderBinView>,
    point: int,
    bin: RenderBinView,
    first_instance: nat,
)
    requires
        0 <= point <= bins.len(),
        bin.entities.len() == 0,
    ensures
        batch_items(bins.insert(point, bin), first_instance) == batch_items(bins, first_instance),
        single_items(bins.insert(point, bin), first_instance) == single_items(bins, first_instance),
    decreases bins.len(),
{
    let with = bins.insert(point, bin);
    if point == bins.len() {
        assert(with.drop_last() =~= bins);
    } else {
        let before = bins.drop_last();
        assert(with.drop_last() =~= before.insert(point, bin));
        theorem_empty_bin_gives_no_item(before, point, bin, first_instance);
        crate::bins::lemma_bins_entities_insert(before, point, bin);
    }
}

/// A set without entities, wherever it stands among the sets, gives no item
/// and takes no instance, no indirect parameter and no index of a batch
/// set: the items are those of the other sets.
pub proof fn theorem_empty_set_gives_no_item(sets: Seq<BatchSetView>, point: int, set: BatchSetView)
    requires
        0 <= point <= sets.len(),
        bins_entities(set.bins) == 0,
    ensures
        multidraw_items(sets.insert(point, set)) == multidraw_items(sets),
        sets_entities(sets.insert(point, set)) == sets_entities(sets),
        sets_nonempty_bins(sets.insert(point, set)) == sets_nonempty_bins(sets),
        sets_nonempty(sets.insert(point, set)) == sets_nonempty(sets),
    decreases sets.len(),
{
    let with = sets.insert(point, set);
    lemma_bins_nonempty_le(set.bins);
    if point == sets.len() {
        assert(with.drop_last() =~= sets);
    } else {
        let before = sets.drop_last();
        assert(with.drop_last() =~= before.insert(point, set));
        theorem_empty_set_gives_no_item(before, point, set);
    }
}

/// Whether the items stand in the order of their pipelines and, for one
/// pipeline, of their draw functions.
pub open spec fn items_sorted(items: Seq<DrawItem>) -> bool {
    forall|i: int, j: int|
        #![trigger items[i], items[j]]
        0 <= i < j < items.len() ==> crate::bins::sort_key_le(
            items[i].batch_set_key,
            items[j].batch_set_key,
        )
}

/// Every item of the batchable tier has the batch set key of a bin.
pub proof fn lemma_batch_item_source(bins: Seq<RenderBinView>, first_instance: nat, k: int) -> (b:
    int)
    requires
        0 <= k < batch_items(bins, first_instance).len(),
    ensures
        0 <= b < bins.len(),
        batch_items(bins, first_instance)[k].batch_set_key == bins[b].batch_set_key,
        batch_items(bins, first_instance)[k].bin_key == bins[b].bin_key,
    decreases bins.len(),
{
    let before = bins.drop_last();
    if k < batch_items(before, first_instance).len() {
        lemma_batch_item_source(before, first_instance, k)
    } else {
        bins.len() - 1
    }
}

/// Every item of the unbatchable tier has the batch set key of a bin.
pub proof fn lemma_single_item_source(bins: Seq<RenderBinView>, first_instance: nat, k: int) -> (b:
    int)
    requires
        0 <= k < single_items(bins, first_instance).len(),
    ensures
        0 <= b < bins.len(),
        single_items(bins, first_instance)[k].batch_set_key == bins[b].batch_set_key,
        single_items(bins, first_instance)[k].bin_key == bins[b].bin_key,
    decreases bins.len(),
{
    let before = bins.drop_last();
    if k < single_items(before, first_instance).len() {
        lemma_single_item_source(before, first_instance, k)
    } else {
        bins.len() - 1
    }
}

/// Every item of the multidrawable tier has the key of a set.
pub proof fn lemma_multidraw_item_source(sets: Seq<BatchSetView>, k: int) -> (s: int)
    requires
        0 <= k < multidraw_items(sets).len(),
    ensures
        0 <= s < sets.len(),
        multidraw_items(sets)[k].batch_set_key == sets[s].key,
    decreases sets.len(),
{
    let before = sets.drop_last();
    if k < multidraw_items(before).len() {
        lemma_multidraw_item_source(before, k)
    } else {
        sets.len() - 1
    }
}

/// The items of the batchable tier stand in the order of their pipelines
/// and draw functions, as its bins do.
pub proof fn lemma_batch_items_sorted(bins: Seq<RenderBinView>, first_instance: nat)
    requires
        bins_sorted(bins),
    ensures
        items_sorted(batch_items(bins, first_instance)),
{
    let items = batch_items(bins, first_instance);
    assert forall|i: int, j: int|
        #![trigger items[i], items[j]]
        0 <= i < j < items.len() implies crate::bins::sort_key_le(
        items[i].batch_set_key,
        items[j].batch_set_key,
    ) by {
        lemma_batch_items_order(bins, first_instance, i, j);
    }
}

/// Of two items of the batchable tier, the one that comes first has the bin
/// that comes first.
proof fn lemma_batch_items_order(bins: Seq<RenderBinView>, first_instance: nat, i: int, j: int)
    requires
        bins_sorted(bins),
        0 <= i < j < batch_items(bins, first_instance).len(),
    ensures
        crate::bins::sort_key_le(
            batch_items(bins, first_instance)[i].batch_set_key,
            batch_items(bins, first_instance)[j].batch_set_key,
        ),
    decreases bins.len(),
{
    let before = bins.drop_last();
    if j < batch_items(before, first_instance).len() {
        assert(bins_sorted(before)) by {
            assert forall|a: int, b: int|
                #![trigger before[a], before[b]]
                0 <= a < b < before.len() implies crate::bins::sort_key_le(
                before[a].batch_set_key,
                before[b].batch_set_key,
            ) by {}
        }
        lemma_batch_items_order(before, first_instance, i, j);
    } else {
        lemma_batch_item_source(before, first_instance, i);
    }
}

/// The items of the unbatchable tier stand in the order of their pipelines
/// and draw functions, as its bins do.
pub proof fn lemma_single_items_sorted(bins: Seq<RenderBinView>, first_instance: nat)
    requires
        bins_sorted(bins),
    ensures
        items_sorted(single_items(bins, first_instance)),
{
    let items = single_items(bins, first_instance);
    assert forall|i: int, j: int|
        #![trigger items[i], items[j]]
        0 <= i < j < items.len() implies crate::bins::sort_key_le(
        items[i].batch_set_key,
        items[j].batch_set_key,
    ) by {
        lemma_single_items_order(bins, first_instance, i, j);
    }
}

/// Of two items of the unbatchable tier, the one that comes first has the
/// bin that comes first, or they have the same bin.
proof fn lemma_single_items_order(bins: Seq<RenderBinView>, first_instance: nat, i: int, j: int)
    requires
        bins_sorted(bins),
        0 <= i < j < single_items(bins, first_instance).len(),
    ensures
        crate::bins::sort_key_le(
            single_items(bins, first_instance)[i].batch_set_key,
            single_items(bins, first_instance)[j].batch_set_key,
        ),
    decreases bins.len(),
{
    let before = bins.drop_last();
    if j < single_items(before, first_instance).len() {
        assert(bins_sorted(before)) by {
            assert forall|a: int, b: int|
                #![trigger before[a], before[b]]
                0 <= a < b < before.len() implies crate::bins::sort_key_le(
                before[a].batch_set_key,
                before[b].batch_set_key,
            ) by {}
        }
        lemma_single_items_order(before, first_instance, i, j);
    } else if i < single_items(before, first_instance).len() {
        lemma_single_item_source(before, first_instance, i);
    }
}

/// The items of the multidrawable tier stand in the order of their
/// pipelines and draw functions, as its sets do.
pub proof fn lemma_multidraw_items_sorted(sets: Seq<BatchSetView>)
    requires
        crate::bins::sets_sorted(sets),
    ensures
        items_sorted(multidraw_items(sets)),
{
    let items = multidraw_items(sets);
    assert forall|i: int, j: int|
        #![trigger items[i], items[j]]
        0 <= i < j < items.len() implies crate::bins::sort_key_le(
        items[i].batch_set_key,
        items[j].batch_set_key,
    ) by {
        lemma_multidraw_items_order(sets, i, j);
    }
}

/// Of two items of the multidrawable tier, the one that comes first has the
/// set that comes first.
proof fn lemma_multidraw_items_order(sets: Seq<BatchSetView>, i: int, j: int)
    requires
        crate::bins::sets_sorted(sets),
        0 <= i < j < multidraw_items(sets).len(),
    ensures
        crate::bins::sort_key_le(
            multidraw_items(sets)[i].batch_set_key,
            multidraw_items(sets)[j].batch_set_key,
        ),
    decreases sets.len(),
{
    let before = sets.drop_last();
    if j < multidraw_items(before).len() {
        assert(crate::bins::sets_sorted(before)) by {
            assert forall|a: int, b: int|
                #![trigger before[a], before[b]]
                0 <= a < b < before.len() implies crate::bins::sort_key_le(
                before[a].key,
                before[b].key,
            ) by {}
        }
        lemma_multidraw_items_order(before, i, j);
    } else {
        lemma_multidraw_item_source(before, i);
    }
}

/// Every item of the multidrawable tier covers an indirect parameter at
/// least.
pub proof fn lemma_multidraw_items_indirect(sets: Seq<BatchSetView>, k: int)
    requires
        sets_entities(sets) <= u32::MAX,
        0 <= k < multidraw_items(sets).len(),
    ensures
        multidraw_items(sets)[k].extra_index matches PhaseItemExtraIndex::IndirectParametersIndex {
            range,
            ..
        } && range.start < range.end,
    decreases sets.len(),
{
    if sets.len() > 0 {
        let before = sets.drop_last();
        lemma_sets_entities_take(sets, sets.len() - 1);
        if k < multidraw_items(before).len() {
            lemma_multidraw_items_indirect(before, k);
        } else {
            lemma_sets_nonempty_le(sets);
            lemma_bins_nonempty_le(sets.last().bins);
        }
    }
}

/// No item of the batchable tier is drawn with indirect parameters.
pub proof fn lemma_batch_items_direct(bins: Seq<RenderBinView>, first_instance: nat, k: int)
    requires
        0 <= k < batch_items(bins, first_instance).len(),
    ensures
        batch_items(bins, first_instance)[k].extra_index == PhaseItemExtraIndex::Absent,
    decreases bins.len(),
{
    if bins.len() > 0 {
        let before = bins.drop_last();
        if k < batch_items(before, first_instance).len() {
            lemma_batch_items_direct(before, first_instance, k);
        }
    }
}

/// No item of the unbatchable tier is drawn with indirect parameters.
pub proof fn lemma_single_items_direct(bins: Seq<RenderBinView>, first_instance: nat, k: int)
    requires
        0 <= k < single_items(bins, first_instance).len(),
    ensures
        single_items(bins, first_instance)[k].extra_index == PhaseItemExtraIndex::Absent,
    decreases bins.len(),
{
    if bins.len() > 0 {
        let before = bins.drop_last();
        if k < single_items(before, first_instance).len() {
            lemma_single_items_direct(before, first_instance, k);
        }
    }
}

/// Takes out of the entities those that were extracted from `entity`.
fn remove_from_entities(entities: &Vec<(Entity, MainEntity)>, entity: MainEntity) -> (kept: Vec<
    (Entity, MainEntity),
>)
    ensures
        kept@ == without(entities@, entity),
{
    let n = entities.len();
    let mut kept: Vec<(Entity, MainEntity)> = Vec::new();
    let mut i: usize = 0;
    while i < n
        invariant
            n == entities.len(),
            i <= n,
            kept@ == without(entities@.take(i as int), entity),
        decreases n - i,
    {
        assert(entities@.take(i + 1).drop_last() =~= entities@.take(i as int));
        if entities[i].1 != entity {
            kept.push(entities[i]);
        }
        i += 1;
    }
    assert(entities@.take(n as int) =~= entities@);
    kept
}

/// Takes out of the bins the entities that were extracted from `entity`.
fn remove_from_bins(bins: &mut Vec<RenderBin>, entity: MainEntity)
    ensures
        final(bins).deep_view() == bins_without(old(bins).deep_view(), entity),
{
    let n = bins.len();
    let ghost before = bins.deep_view();
    let mut i: usize = 0;
    while i < n
        invariant
            n == bins.len(),
            i <= n,
            before.len() == n,
            forall|j: int| 0 <= j < i ==> (#[trigger] bins.deep_view()[j]) == before[j].without(entity),
            forall|j: int| i <= j < n ==> (#[trigger] bins.deep_view()[j]) == before[j],
        decreases n - i,
    {
        let ghost current = bins.deep_view();
        assert(current[i as int] == before[i as int]);
        let kept = remove_from_entities(&bins[i].entities, entity);
        let bin = &mut bins[i];
        bin.entities = kept;
        assert(bins.deep_view() =~= current.update(i as int, before[i as int].without(entity)));
        i += 1;
    }
}

/// Takes out of the sets the entities that were extracted from `entity`.
fn remove_from_sets(sets: &mut Vec<BatchSet>, entity: MainEntity)
    ensures
        final(sets).deep_view() == sets_without(old(sets).deep_view(), entity),
{
    let n = sets.len();
    let ghost before = sets.deep_view();
    let mut i: usize = 0;
    while i < n
        invariant
            n == sets.len(),
            i <= n,
            before.len() == n,
            forall|j: int| 0 <= j < i ==> (#[trigger] sets.deep_view()[j]) == before[j].without(entity),
            forall|j: int| i <= j < n ==> (#[trigger] sets.deep_view()[j]) == before[j],
        decreases n - i,
    {
        let ghost current = sets.deep_view();
        assert(current[i as int] == before[i as int]);
        let set = &mut sets[i];
        remove_from_bins(&mut set.bins, entity);
        assert(sets.deep_view() =~= current.update(i as int, before[i as int].without(entity)));
        i += 1;
    }
}

/// Counts the entities of the sets.
fn count_sets(sets: &Vec<BatchSet>) -> (entities: u32)
    requires
        sets_entities(sets.deep_view()) <= u32::MAX,
    ensures
        entities == sets_entities(sets.deep_view()),
{
    let n = sets.len();
    let ghost view = sets.deep_view();
    let mut entities: u32 = 0;
    let mut i: usize = 0;
    while i < n
        invariant
            n == sets.len(),
            view == sets.deep_view(),
            i <= n,
            sets_entities(view) <= u32::MAX,
            entities == sets_entities(view.take(i as int)),
        decreases n - i,
    {
        proof {
            assert(view.take(i + 1).drop_last() =~= view.take(i as int));
            lemma_sets_entities_take(view, i + 1);
        }
        let measure = measure_bins(&sets[i].bins);
        entities = entities + measure.entities;
        i += 1;
    }
    assert(view.take(n as int) =~= view);
    entities
}

/// What [`measure_bins`] finds in a run of bins.
struct BinMeasure {
    /// Number of entities.
    entities: u32,
    /// Number of bins that hold an entity.
    nonempty: u32,
    /// Position of the first bin that holds an entity, where there is one.
    first: usize,
}

/// Counts the entities of the bins and the bins that hold one, and finds the
/// first such bin.
fn measure_bins(bins: &Vec<RenderBin>) -> (m: BinMeasure)
    requires
        bins_entities(bins.deep_view()) <= u32::MAX,
    ensures
        m.entities == bins_entities(bins.deep_view()),
        m.nonempty == bins_nonempty(bins.deep_view()),
        m.entities > 0 ==> is_first_nonempty(bins.deep_view(), m.first as int),
{
    let n = bins.len();
    let ghost view = bins.deep_view();
    let mut entities: u32 = 0;
    let mut nonempty: u32 = 0;
    let mut first: usize = 0;
    let mut i: usize = 0;
    while i < n
        invariant
            n == bins.len(),
            view == bins.deep_view(),
            i <= n,
            bins_entities(view) <= u32::MAX,
            entities == bins_entities(view.take(i as int)),
            nonempty == bins_nonempty(view.take(i as int)),
            nonempty <= entities,
            entities == 0 ==> forall|j: int| 0 <= j < i ==> (#[trigger] view[j]).entities.len() == 0,
            entities > 0 ==> is_first_nonempty(view, first as int),
        decreases n - i,
    {
        let bin = &bins[i];
        let held = bin.entities.len();
        proof {
            assert(view.take(i + 1).drop_last() =~= view.take(i as int));
            lemma_bins_entities_take(view, i + 1);
        }
        if held > 0 {
            if entities == 0 {
                first = i;
            }
            nonempty = nonempty + 1;
        }
        entities = entities + held as u32;
        i += 1;
    }
    assert(view.take(n as int) =~= view);
    BinMeasure { entities, nonempty, first }
}

/// What the items say, in their order.
pub open spec fn draw_items<I: PhaseItem>(items: Seq<I>) -> Seq<DrawItem> {
    Seq::new(items.len(), |k: int| items[k].draw_item())
}

/// Mathematical content of a [`BinnedRenderPhase`].
pub struct BinnedRenderPhaseView {
    pub multidrawable_meshes: Seq<BatchSetView>,
    pub batchable_meshes: Seq<RenderBinView>,
    pub unbatchable_meshes: Seq<RenderBinView>,
    /// Whether the platform has indirect multi-draw calls.
    pub multidraw: bool,
}

impl BinnedRenderPhaseView {
    /// Every tier is in the order in which it is drawn, no keys occur twice
    /// in a tier, and the entities can be numbered in 32 bits.
    pub open spec fn wf(self) -> bool {
        &&& sets_wf(self.multidrawable_meshes)
        &&& bins_sorted(self.batchable_meshes)
        &&& bins_distinct(self.batchable_meshes)
        &&& bins_sorted(self.unbatchable_meshes)
        &&& bins_distinct(self.unbatchable_meshes)
        &&& self.entities() <= u32::MAX
    }

    /// Number of entities in the phase.
    pub open spec fn entities(self) -> nat {
        sets_entities(self.multidrawable_meshes) + bins_entities(self.batchable_meshes)
            + bins_entities(self.unbatchable_meshes)
    }

    /// The tier that an entity of type `phase_type` is placed in: where the
    /// platform has no indirect multi-draw calls, a multidrawable mesh is
    /// a batchable one.
    pub open spec fn tier(self, phase_type: BinnedRenderPhaseType) -> BinnedRenderPhaseType {
        if !self.multidraw && phase_type == BinnedRenderPhaseType::MultidrawableMesh {
            BinnedRenderPhaseType::BatchableMesh
        } else {
            phase_type
        }
    }

    /// The phase after an entity was added.
    pub open spec fn add(
        self,
        batch_set_key: OpaqueNoLightmap3dBatchSetKey,
        bin_key: OpaqueNoLightmap3dBinKey,
        entity: (Entity, MainEntity),
        phase_type: BinnedRenderPhaseType,
    ) -> BinnedRenderPhaseView {
        match self.tier(phase_type) {
            BinnedRenderPhaseType::MultidrawableMesh => BinnedRenderPhaseView {
                multidrawable_meshes: sets_add(
                    self.multidrawable_meshes,
                    batch_set_key,
                    bin_key,
                    entity,
                ),
                ..self
            },
            BinnedRenderPhaseType::BatchableMesh => BinnedRenderPhaseView {
                batchable_meshes: bins_add(self.batchable_meshes, batch_set_key, bin_key, entity),
                ..self
            },
            BinnedRenderPhaseType::UnbatchableMesh => BinnedRenderPhaseView {
                unbatchable_meshes: bins_add(
                    self.unbatchable_meshes,
                    batch_set_key,
                    bin_key,
                    entity,
                ),
                ..self
            },
        }
    }

    /// The phase without the entities that were extracted from `entity`.
    /// The bins stay, also those that have no entity left.
    pub open spec fn without(self, entity: MainEntity) -> BinnedRenderPhaseView {
        BinnedRenderPhaseView {
            multidrawable_meshes: sets_without(self.multidrawable_meshes, entity),
            batchable_meshes: bins_without(self.batchable_meshes, entity),
            unbatchable_meshes: bins_without(self.unbatchable_meshes, entity),
            ..self
        }
    }

    /// The phase without bins, as it is at the start of a frame.
    pub open spec fn cleared(self) -> BinnedRenderPhaseView {
        BinnedRenderPhaseView {
            multidrawable_meshes: Seq::empty(),
            batchable_meshes: Seq::empty(),
            unbatchable_meshes: Seq::empty(),
            ..self
        }
    }

    /// In each tier the items stand in the order of their pipelines and, for
    /// one pipeline, of their draw functions.
    pub proof fn theorem_tiers_sorted(self)
        requires
            self.wf(),
        ensures
            items_sorted(multidraw_items(self.multidrawable_meshes)),
            items_sorted(
                batch_items(self.batchable_meshes, sets_entities(self.multidrawable_meshes)),
            ),
            items_sorted(
                single_items(
                    self.unbatchable_meshes,
                    sets_entities(self.multidrawable_meshes) + bins_entities(self.batchable_meshes),
                ),
            ),
    {
        lemma_multidraw_items_sorted(self.multidrawable_meshes);
        lemma_batch_items_sorted(self.batchable_meshes, sets_entities(self.multidrawable_meshes));
        lemma_single_items_sorted(
            self.unbatchable_meshes,
            sets_entities(self.multidrawable_meshes) + bins_entities(self.batchable_meshes),
        );
    }

    /// A phase without entities draws no item, whatever bins it has.
    pub proof fn lemma_no_entities_no_items(self)
        requires
            self.entities() == 0,
        ensures
            self.items() == Seq::<DrawItem>::empty(),
    {
        let first = sets_entities(self.multidrawable_meshes);
        let second = first + bins_entities(self.batchable_meshes);
        lemma_no_entities_no_multidraw_items(self.multidrawable_meshes);
        lemma_no_entities_no_bin_items(self.batchable_meshes, first);
        lemma_no_entities_no_bin_items(self.unbatchable_meshes, second);
    }

    /// Every item that a phase draws covers an instance at least, and an
    /// indirect parameter at least where it is drawn with them.
    pub proof fn theorem_items_cover(self, k: int)
        requires
            self.wf(),
            0 <= k < self.items().len(),
        ensures
            !crate::draw::item_is_empty(self.items()[k]),
    {
        let first = sets_entities(self.multidrawable_meshes);
        let second = first + bins_entities(self.batchable_meshes);
        let m = multidraw_items(self.multidrawable_meshes);
        let b = batch_items(self.batchable_meshes, first);
        if k < m.len() {
            lemma_multidraw_items_cover(self.multidrawable_meshes, k);
            lemma_multidraw_items_indirect(self.multidrawable_meshes, k);
        } else if k < m.len() + b.len() {
            lemma_batch_items_cover(self.batchable_meshes, first, k - m.len());
            lemma_batch_items_direct(self.batchable_meshes, first, k - m.len());
        } else {
            lemma_single_items_cover(self.unbatchable_meshes, second, k - m.len() - b.len());
            lemma_single_items_direct(self.unbatchable_meshes, second, k - m.len() - b.len());
        }
    }

    /// The items that the phase draws, in the order in which it draws them:
    /// the multidrawable tier, then the batchable tier, then the unbatchable
    /// tier, each in the order of its bins.
    pub open spec fn items(self) -> Seq<DrawItem> {
        multidraw_items(self.multidrawable_meshes) + batch_items(
            self.batchable_meshes,
            sets_entities(self.multidrawable_meshes),
        ) + single_items(
            self.unbatchable_meshes,
            sets_entities(self.multidrawable_meshes) + bins_entities(self.batchable_meshes),
        )
    }
}

/// The entities that were queued for one view in one frame, in their bins.
#[derive(Debug)]
pub struct BinnedRenderPhase<I: BinnedPhaseItem> {
    multidrawable_meshes: Vec<BatchSet>,
    batchable_meshes: Vec<RenderBin>,
    unbatchable_meshes: Vec<RenderBin>,
    multidraw: bool,
    entities: u32,
    marker: PhantomData<I>,
}

impl<I: BinnedPhaseItem> View for BinnedRenderPhase<I> {
    type V = BinnedRenderPhaseView;

    closed spec fn view(&self) -> BinnedRenderPhaseView {
        BinnedRenderPhaseView {
            multidrawable_meshes: self.multidrawable_meshes.deep_view(),
            batchable_meshes: self.batchable_meshes.deep_view(),
            unbatchable_meshes: self.unbatchable_meshes.deep_view(),
            multidraw: self.multidraw,
        }
    }
}

impl<I: BinnedPhaseItem> BinnedRenderPhase<I> {
    /// What every phase that this module hands out satisfies.
    pub closed spec fn wf(&self) -> bool {
        &&& self@.wf()
        &&& self.entities == self@.entities()
    }

    /// The phase without bins, for a platform that has indirect multi-draw
    /// calls or has none.
    pub fn new(multidraw: bool) -> (phase: Self)
        ensures
            phase.wf(),
            phase@ == (BinnedRenderPhaseView {
                multidrawable_meshes: Seq::empty(),
                batchable_meshes: Seq::empty(),
                unbatchable_meshes: Seq::empty(),
                multidraw,
            }),
    {
        let phase = BinnedRenderPhase {
            multidrawable_meshes: Vec::new(),
            batchable_meshes: Vec::new(),
            unbatchable_meshes: Vec::new(),
            multidraw,
            entities: 0,
            marker: PhantomData,
        };
        assert(phase.multidrawable_meshes.deep_view() =~= Seq::<BatchSetView>::empty());
        assert(phase.batchable_meshes.deep_view() =~= Seq::<RenderBinView>::empty());
        phase
    }

    /// Number of entities in the phase.
    pub fn len(&self) -> (n: u32)
        requires
            self.wf(),
        ensures
            n == self@.entities(),
            self@.wf(),
    {
        self.entities
    }

    /// Whether the phase holds no entity, and so draws nothing.
    pub fn is_empty(&self) -> (empty: bool)
        requires
            self.wf(),
        ensures
            empty == (self@.entities() == 0),
    {
        self.entities == 0
    }

    /// Bins a new entity.
    ///
    /// The entity joins the bin with its keys in the tier of `phase_type`,
    /// or makes that bin. On a platform without indirect multi-draw calls a
    /// multidrawable mesh is taken as a batchable one. A phase that holds as
    /// many entities as can be numbered in 32 bits takes no more: the entity
    /// is then left out, and the answer is `false`.
    pub fn add(
        &mut self,
        batch_set_key: OpaqueNoLightmap3dBatchSetKey,
        bin_key: OpaqueNoLightmap3dBinKey,
        entity: (Entity, MainEntity),
        phase_type: BinnedRenderPhaseType,
    ) -> (added: bool)
        requires
            old(self).wf(),
        ensures
            final(self).wf(),
            added == (old(self)@.entities() < u32::MAX),
            added ==> final(self)@ == old(self)@.add(batch_set_key, bin_key, entity, phase_type),
            !added ==> final(self)@ == old(self)@,
    {
        if self.entities == u32::MAX {
            return false;
        }
        // Without indirect multi-draw calls, a multidrawable mesh is batched.
        let tier = if !self.multidraw && phase_type == BinnedRenderPhaseType::MultidrawableMesh {
            BinnedRenderPhaseType::BatchableMesh
        } else {
            phase_type
        };
        match tier {
            BinnedRenderPhaseType::MultidrawableMesh => {
                add_to_sets(&mut self.multidrawable_meshes, batch_set_key, bin_key, entity);
            },
            BinnedRenderPhaseType::BatchableMesh => {
                add_to_bins(&mut self.batchable_meshes, batch_set_key, bin_key, entity);
            },
            BinnedRenderPhaseType::UnbatchableMesh => {
                add_to_bins(&mut self.unbatchable_meshes, batch_set_key, bin_key, entity);
            },
        }
        self.entities = self.entities + 1;
        true
    }

    /// Takes out of the phase the entities that were extracted from
    /// `entity`, and tells how many they were.
    ///
    /// The bins of the phase stay where they are, also those that have no
    /// entity left: they are not drawn.
    pub fn remove(&mut self, entity: MainEntity) -> (removed: u32)
        requires
            old(self).wf(),
        ensures
            final(self).wf(),
            final(self)@ == old(self)@.without(entity),
            removed == old(self)@.entities() - final(self)@.entities(),
    {
        proof {
            lemma_sets_without_wf(self@.multidrawable_meshes, entity);
            lemma_bins_without_wf(self@.batchable_meshes, entity);
            lemma_bins_without_wf(self@.unbatchable_meshes, entity);
            lemma_sets_without_entities(self@.multidrawable_meshes, entity);
            lemma_bins_without_entities(self@.batchable_meshes, entity);
            lemma_bins_without_entities(self@.unbatchable_meshes, entity);
        }
        remove_from_sets(&mut self.multidrawable_meshes, entity);
        remove_from_bins(&mut self.batchable_meshes, entity);
        remove_from_bins(&mut self.unbatchable_meshes, entity);
        let multidrawable = count_sets(&self.multidrawable_meshes);
        let batchable = measure_bins(&self.batchable_meshes).entities;
        let unbatchable = measure_bins(&self.unbatchable_meshes).entities;
        let before = self.entities;
        self.entities = multidrawable + batchable + unbatchable;
        before - self.entities
    }

    /// Takes every entity and every bin out of the phase: the phase is as it
    /// was when it was made.
    pub fn clear(&mut self)
        requires
            old(self).wf(),
        ensures
            final(self).wf(),
            final(self)@ == old(self)@.cleared(),
            final(self)@.entities() == 0,
    {
        self.multidrawable_meshes = Vec::new();
        self.batchable_meshes = Vec::new();
        self.unbatchable_meshes = Vec::new();
        self.entities = 0;
        assert(self.multidrawable_meshes.deep_view() =~= Seq::<BatchSetView>::empty());
        assert(self.batchable_meshes.deep_view() =~= Seq::<RenderBinView>::empty());
    }

    /// The items that the phase draws, in the order in which it draws them.
    ///
    /// A set of the multidrawable tier gives one item, a bin of the
    /// batchable tier gives one item, and an entity of the unbatchable tier
    /// gives one item. A bin or a set that holds no entity gives none, so
    /// every item covers an instance at least.
    pub fn items(&self) -> (items: Vec<I>)
        requires
            self.wf(),
        ensures
            draw_items(items@) == self@.items(),
            forall|k: int|
                0 <= k < items.len() ==> (#[trigger] items[k]).draw_item().batch_range.start
                    < items[k].draw_item().batch_range.end,
            self@.entities() == 0 ==> items.len() == 0,
    {
        let mut items: Vec<I> = Vec::new();
        let mut instance: u32 = 0;
        self.push_multidraw_items(&mut items, &mut instance);
        self.push_batch_items(&mut items, &mut instance);
        self.push_single_items(&mut items, &mut instance);
        proof {
            let view = self@;
            let all = view.items();
            assert(draw_items(items@) =~= all);
            let first = sets_entities(view.multidrawable_meshes);
            let second = first + bins_entities(view.batchable_meshes);
            let m = multidraw_items(view.multidrawable_meshes);
            let b = batch_items(view.batchable_meshes, first);
            assert forall|k: int| 0 <= k < items.len() implies (
            #[trigger] items[k]).draw_item().batch_range.start
                < items[k].draw_item().batch_range.end by {
                assert(items[k].draw_item() == draw_items(items@)[k]);
                if k < m.len() {
                    lemma_multidraw_items_cover(view.multidrawable_meshes, k);
                } else if k < m.len() + b.len() {
                    lemma_batch_items_cover(view.batchable_meshes, first, k - m.len());
                } else {
                    lemma_single_items_cover(view.unbatchable_meshes, second, k - m.len() - b.len());
                }
            }
            if view.entities() == 0 {
                lemma_no_entities_no_multidraw_items(view.multidrawable_meshes);
                lemma_no_entities_no_bin_items(view.batchable_meshes, first);
                lemma_no_entities_no_bin_items(view.unbatchable_meshes, second);
            }
        }
        items
    }

    /// Adds the items of the multidrawable tier.
    fn push_multidraw_items(&self, items: &mut Vec<I>, instance: &mut u32)
        requires
            self.wf(),
            old(items)@.len() == 0,
            *old(instance) == 0,
        ensures
            draw_items(final(items)@) == multidraw_items(self@.multidrawable_meshes),
            *final(instance) == sets_entities(self@.multidrawable_meshes),
    {
        let ghost sets = self@.multidrawable_meshes;
        let n = self.multidrawable_meshes.len();
        let mut indirect: u32 = 0;
        let mut index: u32 = 0;
        let mut s: usize = 0;
        while s < n
            invariant
                self.wf(),
                sets == self@.multidrawable_meshes,
                n == self.multidrawable_meshes.len(),
                s <= n,
                draw_items(items@) == multidraw_items(sets.take(s as int)),
                *instance == sets_entities(sets.take(s as int)),
                indirect == sets_nonempty_bins(sets.take(s as int)),
                index == sets_nonempty(sets.take(s as int)),
            decreases n - s,
        {
            let set = &self.multidrawable_meshes[s];
            proof {
                assert(sets.take(s + 1).drop_last() =~= sets.take(s as int));
                lemma_sets_entities_take(sets, s + 1);
                lemma_sets_nonempty_le(sets.take(s + 1));
                lemma_bins_nonempty_le(sets[s as int].bins);
            }
            let measure = measure_bins(&set.bins);
            if measure.entities > 0 {
                let first = &set.bins[measure.first];
                proof {
                    // The first bin that holds an entity is the only one that is the first.
                    let chosen = choose|first: int| is_first_nonempty(set@.bins, first);
                    assert(chosen == measure.first);
                }
                let item = I::new(
                    set.key,
                    first.bin_key,
                    first.entities[0],
                    Range { start: *instance, end: *instance + measure.entities },
                    PhaseItemExtraIndex::IndirectParametersIndex {
                        range: Range { start: indirect, end: indirect + measure.nonempty },
                        batch_set_index: Some(index),
                    },
                );
                items.push(item);
                *instance = *instance + measure.entities;
                indirect = indirect + measure.nonempty;
                index = index + 1;
            }
            s += 1;
        }
        assert(sets.take(n as int) =~= sets);
    }

    /// Adds the items of the batchable tier.
    fn push_batch_items(&self, items: &mut Vec<I>, instance: &mut u32)
        requires
            self.wf(),
            *old(instance) == sets_entities(self@.multidrawable_meshes),
        ensures
            draw_items(final(items)@) == draw_items(old(items)@) + batch_items(
                self@.batchable_meshes,
                *old(instance) as nat,
            ),
            *final(instance) == *old(instance) + bins_entities(self@.batchable_meshes),
    {
        let ghost bins = self@.batchable_meshes;
        let ghost base = *instance as nat;
        let ghost start = draw_items(items@);
        let n = self.batchable_meshes.len();
        let mut b: usize = 0;
        while b < n
            invariant
                self.wf(),
                bins == self@.batchable_meshes,
                base == sets_entities(self@.multidrawable_meshes),
                n == self.batchable_meshes.len(),
                b <= n,
                draw_items(items@) == start + batch_items(bins.take(b as int), base),
                *instance == base + bins_entities(bins.take(b as int)),
            decreases n - b,
        {
            let bin = &self.batchable_meshes[b];
            proof {
                assert(bins.take(b + 1).drop_last() =~= bins.take(b as int));
                lemma_bins_entities_take(bins, b + 1);
            }
            let held = bin.entities.len();
            let ghost before = draw_items(items@);
            if held > 0 {
                let item = I::new(
                    bin.batch_set_key,
                    bin.bin_key,
                    bin.entities[0],
                    Range { start: *instance, end: *instance + held as u32 },
                    PhaseItemExtraIndex::Absent,
                );
                items.push(item);
                assert(draw_items(items@) =~= before + seq![
                    batch_item(bins[b as int], base + bins_entities(bins.take(b as int))),
                ]);
                *instance = *instance + held as u32;
            }
            b += 1;
        }
        assert(bins.take(n as int) =~= bins);
    }

    /// Adds the items of the unbatchable tier.
    fn push_single_items(&self, items: &mut Vec<I>, instance: &mut u32)
        requires
            self.wf(),
            *old(instance) == sets_entities(self@.multidrawable_meshes) + bins_entities(
                self@.batchable_meshes,
            ),
        ensures
            draw_items(final(items)@) == draw_items(old(items)@) + single_items(
                self@.unbatchable_meshes,
                *old(instance) as nat,
            ),
    {
        let ghost bins = self@.unbatchable_meshes;
        let ghost base = *instance as nat;
        let ghost start = draw_items(items@);
        let n = self.unbatchable_meshes.len();
        let mut b: usize = 0;
        while b < n
            invariant
                self.wf(),
                bins == self@.unbatchable_meshes,
                base == sets_entities(self@.multidrawable_meshes) + bins_entities(
                    self@.batchable_meshes,
                ),
                n == self.unbatchable_meshes.len(),
                b <= n,
                draw_items(items@) == start + single_items(bins.take(b as int), base),
                *instance == base + bins_entities(bins.take(b as int)),
            decreases n - b,
        {
            let bin = &self.unbatchable_meshes[b];
            proof {
                assert(bins.take(b + 1).drop_last() =~= bins.take(b as int));
                lemma_bins_entities_take(bins, b + 1);
            }
            let held = bin.entities.len();
            let ghost before = draw_items(items@);
            let ghost first = *instance as nat;
            let mut e: usize = 0;
            while e < held
                invariant
                    self.wf(),
                    bin@ == bins[b as int],
                    held == bin.entities.len(),
                    e <= held,
                    first + held <= u32::MAX,
                    *instance == first + e,
                    draw_items(items@) == before + bin_single_items(bins[b as int], first).take(
                        e as int,
                    ),
                decreases held - e,
            {
                let ghost current = draw_items(items@);
                let item = I::new(
                    bin.batch_set_key,
                    bin.bin_key,
                    bin.entities[e],
                    Range { start: *instance, end: *instance + 1 },
                    PhaseItemExtraIndex::Absent,
                );
                items.push(item);
                assert(draw_items(items@) =~= current + seq![
                    single_item(bins[b as int], e as int, (first + e) as nat),
                ]);
                *instance = *instance + 1;
                e += 1;
            }
            b += 1;
        }
        assert(bins.take(n as int) =~= bins);
    }
}

} // verus!

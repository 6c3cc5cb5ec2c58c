//! Drawing the items of a phase: what each item records in the pass, and
//! what becomes of an item that cannot be drawn.

use crate::bind_group::{
    SetVisbufferPrepassViewBindGroup,
    ViewUniformOffset,
    VisbufferPrepassViewBindGroup,
};
use crate::cache::PipelineCache;
use crate::encoder::{
    last_pipeline,
    lemma_push_other,
    lemma_push_pipeline,
    no_degenerate_draws,
    draw_calls,
    no_redundant_binds,
    pipeline_binds,
    with_pipeline,
    Command,
    TrackedRenderPass,
};
use crate::ids::{BindGroup, Entity};
use crate::phase::{draw_items, BinnedRenderPhase};
use crate::phase_item::{
    BinnedPhaseItem,
    CachedRenderPipelinePhaseItem,
    DrawItem,
    PhaseItemExtraIndex,
};
use vstd::prelude::*;

verus! {

/// Index of the bind group of the view.
pub const VIEW_BIND_GROUP: usize = 0;

/// Index of the bind group of the mesh.
pub const MESH_BIND_GROUP: usize = 1;

/// Index of the bind group of the material.
pub const MATERIAL_BIND_GROUP: usize = 2;

/// The GPU resources that the draws of one view need.
#[derive(Clone, Debug, PartialEq, Eq)]
pub struct DrawResources {
    pub view_bind_group: VisbufferPrepassViewBindGroup,
    pub view_uniform_offset: ViewUniformOffset,
    /// The bind group of the meshes, where it was prepared.
    pub mesh_bind_group: Option<BindGroup>,
    /// The bind groups of the materials, at their indices.
    pub material_bind_groups: Vec<BindGroup>,
}

/// Mathematical content of [`DrawResources`].
pub struct DrawResourcesView {
    pub view_bind_group: VisbufferPrepassViewBindGroup,
    pub view_uniform_offset: ViewUniformOffset,
    pub mesh_bind_group: Option<BindGroup>,
    pub material_bind_groups: Seq<BindGroup>,
}

impl View for DrawResources {
    type V = DrawResourcesView;

    open spec fn view(&self) -> DrawResourcesView {
        DrawResourcesView {
            view_bind_group: self.view_bind_group,
            view_uniform_offset: self.view_uniform_offset,
            mesh_bind_group: self.mesh_bind_group,
            material_bind_groups: self.material_bind_groups@,
        }
    }
}

/// The outcome of one step of a draw.
#[derive(Clone, Copy, Debug, PartialEq, Eq, Hash, Structural)]
pub enum RenderCommandResult {
    /// The step was recorded.
    Success,
    /// There was nothing to record.
    Skip,
    /// The step could not be recorded.
    Failure(DrawError),
}

/// Why an item could not be drawn.
#[derive(Clone, Copy, Debug, PartialEq, Eq, Hash, Structural)]
pub enum DrawError {
    /// The pipeline of the item is not in the pipeline cache.
    PipelineNotCached,
    /// The bind group of the view was not prepared.
    MissingViewBindGroup,
    /// There is no bind group for the mesh.
    MissingMeshBindGroup,
    /// There is no bind group for the material.
    MissingMaterialBindGroup,
}

/// An item that was left out of the pass, and why.
#[derive(Clone, Copy, Debug, PartialEq, Eq, Hash, Structural)]
pub struct DrawFailure {
    /// The entity that stands for the draws of the item.
    pub entity: Entity,
    pub error: DrawError,
}

/// Whether the item covers no instance, or no indirect parameters where it
/// is drawn with them.
pub open spec fn item_is_empty(item: DrawItem) -> bool {
    ||| item.batch_range.start >= item.batch_range.end
    ||| item.extra_index matches PhaseItemExtraIndex::IndirectParametersIndex { range, .. }
        && range.start >= range.end
}

/// The bind group of the material of the item, where there is one.
pub open spec fn material_bind_group(item: DrawItem, resources: DrawResourcesView) -> Option<
    BindGroup,
> {
    match item.batch_set_key.material_bind_group_index {
        Some(index) => if index < resources.material_bind_groups.len() {
            Some(resources.material_bind_groups[index as int])
        } else {
            None
        },
        None => None,
    }
}

/// What keeps the item from being drawn, if anything does: its pipeline is
/// not among the `compiled` pipelines of the cache, or a bind group is
/// missing.
pub open spec fn item_error(item: DrawItem, resources: DrawResourcesView, compiled: nat) -> Option<
    DrawError,
> {
    if item.batch_set_key.pipeline.0 >= compiled {
        Some(DrawError::PipelineNotCached)
    } else if resources.view_bind_group.0 is None {
        Some(DrawError::MissingViewBindGroup)
    } else if resources.mesh_bind_group is None {
        Some(DrawError::MissingMeshBindGroup)
    } else if material_bind_group(item, resources) is None {
        Some(DrawError::MissingMaterialBindGroup)
    } else {
        None
    }
}

/// The outcome of drawing the item.
pub open spec fn draw_outcome(item: DrawItem, resources: DrawResourcesView, compiled: nat) -> RenderCommandResult {
    if item_is_empty(item) {
        RenderCommandResult::Skip
    } else {
        match item_error(item, resources, compiled) {
            Some(error) => RenderCommandResult::Failure(error),
            None => RenderCommandResult::Success,
        }
    }
}

/// The draw call of the item: an indirect multi-draw call from the buffers
/// of its batch set over its indirect parameters where it has them, a draw
/// call of the mesh of its bin over its instances otherwise.
pub open spec fn draw_call(item: DrawItem) -> Command {
    match item.extra_index {
        PhaseItemExtraIndex::IndirectParametersIndex { range, batch_set_index } => {
            Command::MultiDrawIndirect {
                vertex_slab: item.batch_set_key.vertex_slab,
                index_slab: item.batch_set_key.index_slab,
                first: range.start,
                count: (range.end - range.start) as u32,
                batch_set_index,
            }
        },
        _ => Command::Draw {
            mesh: item.bin_key.asset_id,
            indexed: item.batch_set_key.index_slab is Some,
            first_instance: item.batch_range.start,
            end_instance: item.batch_range.end,
        },
    }
}

/// The dynamic offset of the bind group of the mesh.
pub open spec fn mesh_dynamic_offset(item: DrawItem) -> Option<u32> {
    match item.extra_index {
        PhaseItemExtraIndex::DynamicOffset(offset) => Some(offset),
        _ => None,
    }
}

/// What the item records behind its pipeline: the bind groups of the view,
/// of the mesh and of the material, and the draw call.
pub open spec fn item_commands(item: DrawItem, resources: DrawResourcesView) -> Seq<Command> {
    seq![
        Command::SetBindGroup {
            index: VIEW_BIND_GROUP,
            bind_group: resources.view_bind_group.0->Some_0,
            dynamic_offset: Some(resources.view_uniform_offset.offset),
        },
        Command::SetBindGroup {
            index: MESH_BIND_GROUP,
            bind_group: resources.mesh_bind_group->Some_0,
            dynamic_offset: mesh_dynamic_offset(item),
        },
        Command::SetBindGroup {
            index: MATERIAL_BIND_GROUP,
            bind_group: material_bind_group(item, resources)->Some_0,
            dynamic_offset: None,
        },
        draw_call(item),
    ]
}

/// The commands after the item was drawn. An item that covers nothing or
/// cannot be drawn records nothing at all; another one binds its pipeline,
/// unless that is bound, and records its commands.
pub open spec fn draw(
    commands: Seq<Command>,
    item: DrawItem,
    resources: DrawResourcesView,
    compiled: nat,
) -> Seq<Command> {
    if draw_outcome(item, resources, compiled) == RenderCommandResult::Success {
        with_pipeline(commands, item.batch_set_key.pipeline) + item_commands(item, resources)
    } else {
        commands
    }
}

/// The commands after the items were drawn in their order.
pub open spec fn render(
    commands: Seq<Command>,
    items: Seq<DrawItem>,
    resources: DrawResourcesView,
    compiled: nat,
) -> Seq<Command>
    decreases items.len(),
{
    if items.len() == 0 {
        commands
    } else {
        draw(render(commands, items.drop_last(), resources, compiled), items.last(), resources, compiled)
    }
}

/// The items that could not be drawn, in their order.
pub open spec fn failures(items: Seq<DrawItem>, resources: DrawResourcesView, compiled: nat) -> Seq<
    DrawFailure,
>
    decreases items.len(),
{
    if items.len() == 0 {
        Seq::empty()
    } else {
        failures(items.drop_last(), resources, compiled) + match draw_outcome(
            items.last(),
            resources,
            compiled,
        ) {
            RenderCommandResult::Failure(error) => seq![
                DrawFailure { entity: items.last().representative_entity.0, error },
            ],
            _ => Seq::empty(),
        }
    }
}

/// After an item was drawn, its pipeline is the one that is bound, and no
/// bind is redundant and no draw call draws nothing that was not so before.
pub proof fn lemma_draw(
    commands: Seq<Command>,
    item: DrawItem,
    resources: DrawResourcesView,
    compiled: nat,
)
    requires
        draw_outcome(item, resources, compiled) == RenderCommandResult::Success,
    ensures
        last_pipeline(draw(commands, item, resources, compiled)) == Some(
            item.batch_set_key.pipeline,
        ),
        no_redundant_binds(commands) ==> no_redundant_binds(
            draw(commands, item, resources, compiled),
        ),
        no_degenerate_draws(commands) ==> no_degenerate_draws(
            draw(commands, item, resources, compiled),
        ),
{
    let pipeline = item.batch_set_key.pipeline;
    let bound = with_pipeline(commands, pipeline);
    if last_pipeline(commands) != Some(pipeline) {
        lemma_push_pipeline(commands, pipeline);
    }
    let added = item_commands(item, resources);
    let one = bound.push(added[0]);
    let two = one.push(added[1]);
    let three = two.push(added[2]);
    let four = three.push(added[3]);
    lemma_push_other(bound, added[0]);
    lemma_push_other(one, added[1]);
    lemma_push_other(two, added[2]);
    lemma_push_other(three, added[3]);
    assert(four =~= bound + added);
    if no_degenerate_draws(commands) {
        let after = bound + added;
        assert forall|j: int| 0 <= j < after.len() implies !(#[trigger] after[j]).is_degenerate() by {}
    }
}

/// An item that is drawn binds a pipeline once at most, and none where its
/// pipeline is bound.
proof fn lemma_draw_binds(
    commands: Seq<Command>,
    item: DrawItem,
    resources: DrawResourcesView,
    compiled: nat,
)
    requires
        draw_outcome(item, resources, compiled) == RenderCommandResult::Success,
    ensures
        pipeline_binds(draw(commands, item, resources, compiled)) <= pipeline_binds(commands) + 1,
        last_pipeline(commands) == Some(item.batch_set_key.pipeline) ==> pipeline_binds(
            draw(commands, item, resources, compiled),
        ) == pipeline_binds(commands),
{
    let pipeline = item.batch_set_key.pipeline;
    let bound = with_pipeline(commands, pipeline);
    if last_pipeline(commands) != Some(pipeline) {
        assert(bound.drop_last() =~= commands);
    }
    let added = item_commands(item, resources);
    let one = bound.push(added[0]);
    let two = one.push(added[1]);
    let three = two.push(added[2]);
    let four = three.push(added[3]);
    assert(one.drop_last() =~= bound);
    assert(two.drop_last() =~= one);
    assert(three.drop_last() =~= two);
    assert(four.drop_last() =~= three);
    assert(pipeline_binds(one) == pipeline_binds(bound));
    assert(pipeline_binds(three) == pipeline_binds(two));
    assert(four =~= bound + added);
}

/// The items of a group, which are drawn one after the other with one
/// pipeline, bind that pipeline once at most between them: whichever of them
/// can be drawn, and whatever was recorded before them.
pub proof fn theorem_one_bind_per_group(
    commands: Seq<Command>,
    items: Seq<DrawItem>,
    pipeline: crate::ids::CachedRenderPipelineId,
    resources: DrawResourcesView,
    compiled: nat,
)
    requires
        forall|k: int| 0 <= k < items.len() ==> (#[trigger] items[k]).batch_set_key.pipeline == pipeline,
    ensures
        pipeline_binds(render(commands, items, resources, compiled)) <= pipeline_binds(commands) + 1,
        render(commands, items, resources, compiled) == commands || last_pipeline(
            render(commands, items, resources, compiled),
        ) == Some(pipeline),
    decreases items.len(),
{
    if items.len() > 0 {
        let before = items.drop_last();
        assert forall|k: int| 0 <= k < before.len() implies (
        #[trigger] before[k]).batch_set_key.pipeline == pipeline by {}
        theorem_one_bind_per_group(commands, before, pipeline, resources, compiled);
        let drawn = render(commands, before, resources, compiled);
        let item = items.last();
        if draw_outcome(item, resources, compiled) == RenderCommandResult::Success {
            lemma_draw(drawn, item, resources, compiled);
            lemma_draw_binds(drawn, item, resources, compiled);
        }
    }
}

/// Number of the items that can be drawn.
pub open spec fn drawable(items: Seq<DrawItem>, resources: DrawResourcesView, compiled: nat) -> nat
    decreases items.len(),
{
    if items.len() == 0 {
        0
    } else {
        drawable(items.drop_last(), resources, compiled) + if draw_outcome(
            items.last(),
            resources,
            compiled,
        ) == RenderCommandResult::Success {
            1nat
        } else {
            0nat
        }
    }
}

/// An item that is drawn issues one draw call.
proof fn lemma_draw_calls(
    commands: Seq<Command>,
    item: DrawItem,
    resources: DrawResourcesView,
    compiled: nat,
)
    requires
        draw_outcome(item, resources, compiled) == RenderCommandResult::Success,
    ensures
        draw_calls(draw(commands, item, resources, compiled)) == draw_calls(commands) + 1,
{
    let pipeline = item.batch_set_key.pipeline;
    let bound = with_pipeline(commands, pipeline);
    if last_pipeline(commands) != Some(pipeline) {
        assert(bound.drop_last() =~= commands);
    }
    let added = item_commands(item, resources);
    let one = bound.push(added[0]);
    let two = one.push(added[1]);
    let three = two.push(added[2]);
    let four = three.push(added[3]);
    assert(one.drop_last() =~= bound);
    assert(two.drop_last() =~= one);
    assert(three.drop_last() =~= two);
    assert(four.drop_last() =~= three);
    assert(added[3].is_draw());
    assert(draw_calls(one) == draw_calls(bound));
    assert(draw_calls(two) == draw_calls(one));
    assert(draw_calls(three) == draw_calls(two));
    assert(draw_calls(four) == draw_calls(three) + 1);
    assert(four =~= bound + added);
}

/// Every item that can be drawn issues one draw call, and no other item
/// issues any: the draw calls are as many as the items that can be drawn.
pub proof fn theorem_one_draw_call_per_item(
    commands: Seq<Command>,
    items: Seq<DrawItem>,
    resources: DrawResourcesView,
    compiled: nat,
)
    ensures
        draw_calls(render(commands, items, resources, compiled)) == draw_calls(commands) + drawable(
            items,
            resources,
            compiled,
        ),
    decreases items.len(),
{
    if items.len() > 0 {
        theorem_one_draw_call_per_item(commands, items.drop_last(), resources, compiled);
        let before = render(commands, items.drop_last(), resources, compiled);
        if draw_outcome(items.last(), resources, compiled) == RenderCommandResult::Success {
            lemma_draw_calls(before, items.last(), resources, compiled);
        }
    }
}

/// Whatever items are drawn, in whatever state of the resources: no bind of
/// a pipeline is redundant, and no draw call draws nothing.
pub proof fn theorem_render(
    commands: Seq<Command>,
    items: Seq<DrawItem>,
    resources: DrawResourcesView,
    compiled: nat,
)
    ensures
        no_redundant_binds(commands) ==> no_redundant_binds(
            render(commands, items, resources, compiled),
        ),
        no_degenerate_draws(commands) ==> no_degenerate_draws(
            render(commands, items, resources, compiled),
        ),
    decreases items.len(),
{
    if items.len() > 0 {
        theorem_render(commands, items.drop_last(), resources, compiled);
        let before = render(commands, items.drop_last(), resources, compiled);
        if draw_outcome(items.last(), resources, compiled) == RenderCommandResult::Success {
            lemma_draw(before, items.last(), resources, compiled);
        }
    }
}

/// Draws one item: binds its pipeline, the bind groups of the view, of the
/// mesh and of the material, and issues its draw call.
///
/// An item that covers nothing is skipped. An item whose pipeline or bind
/// groups are missing fails. Neither records anything.
pub fn draw_visbuffer<I: CachedRenderPipelinePhaseItem>(
    item: &I,
    pass: &mut TrackedRenderPass,
    resources: &DrawResources,
    pipeline_cache: &PipelineCache,
) -> (result: RenderCommandResult)
    requires
        old(pass).wf(),
    ensures
        final(pass).wf(),
        final(pass)@ == old(pass)@.with(
            draw(old(pass)@.commands, item.draw_item(), resources@, pipeline_cache@.compiled()),
        ),
        result == draw_outcome(item.draw_item(), resources@, pipeline_cache@.compiled()),
{
    let batch_range = item.batch_range();
    if batch_range.start >= batch_range.end {
        return RenderCommandResult::Skip;
    }
    let first_instance = batch_range.start;
    let end_instance = batch_range.end;
    let extra_index = item.extra_index();
    match &extra_index {
        PhaseItemExtraIndex::IndirectParametersIndex { range, .. } => {
            if range.start >= range.end {
                return RenderCommandResult::Skip;
            }
        },
        _ => {},
    }
    // What the item needs is looked for before anything is recorded, so that
    // the item is drawn whole or not at all.
    let pipeline = item.cached_pipeline();
    if pipeline.id() >= pipeline_cache.compiled() {
        return RenderCommandResult::Failure(DrawError::PipelineNotCached);
    }
    if resources.view_bind_group.0.is_none() {
        return RenderCommandResult::Failure(DrawError::MissingViewBindGroup);
    }
    let mesh_bind_group = match resources.mesh_bind_group {
        Some(bind_group) => bind_group,
        None => {
            return RenderCommandResult::Failure(DrawError::MissingMeshBindGroup);
        },
    };
    let batch_set_key = item.batch_set_key();
    let material = match batch_set_key.material_bind_group_index {
        Some(index) => if (index as usize) < resources.material_bind_groups.len() {
            Some(resources.material_bind_groups[index as usize])
        } else {
            None
        },
        None => None,
    };
    let material_bind_group = match material {
        Some(bind_group) => bind_group,
        None => {
            return RenderCommandResult::Failure(DrawError::MissingMaterialBindGroup);
        },
    };
    let ghost before = pass@.commands;
    pass.set_render_pipeline(pipeline);
    match SetVisbufferPrepassViewBindGroup::<VIEW_BIND_GROUP>::render(
        &resources.view_uniform_offset,
        &resources.view_bind_group,
        pass,
    ) {
        RenderCommandResult::Success => {},
        failed => {
            return failed;
        },
    }
    let mesh_dynamic_offset = match &extra_index {
        PhaseItemExtraIndex::DynamicOffset(offset) => Some(*offset),
        _ => None,
    };
    pass.set_bind_group(MESH_BIND_GROUP, mesh_bind_group, mesh_dynamic_offset);
    pass.set_bind_group(MATERIAL_BIND_GROUP, material_bind_group, None);
    match &extra_index {
        PhaseItemExtraIndex::IndirectParametersIndex { range, batch_set_index } => {
            pass.multi_draw_indirect(
                batch_set_key.vertex_slab,
                batch_set_key.index_slab,
                range.start,
                range.end - range.start,
                *batch_set_index,
            );
        },
        _ => {
            pass.draw(
                item.bin_key().asset_id,
                batch_set_key.index_slab.is_some(),
                first_instance,
                end_instance,
            );
        },
    }
    assert(pass@.commands =~= with_pipeline(before, pipeline) + item_commands(
        item.draw_item(),
        resources@,
    ));
    RenderCommandResult::Success
}

/// Draws the items in their order.
///
/// An item that cannot be drawn is left out and reported; the items behind
/// it are drawn all the same.
pub fn render_items<I: CachedRenderPipelinePhaseItem>(
    items: &Vec<I>,
    pass: &mut TrackedRenderPass,
    resources: &DrawResources,
    pipeline_cache: &PipelineCache,
) -> (failed: Vec<DrawFailure>)
    requires
        old(pass).wf(),
    ensures
        final(pass).wf(),
        final(pass)@ == old(pass)@.with(
            render(
                old(pass)@.commands,
                draw_items(items@),
                resources@,
                pipeline_cache@.compiled(),
            ),
        ),
        failed@ == failures(draw_items(items@), resources@, pipeline_cache@.compiled()),
{
    let ghost all = draw_items(items@);
    let ghost start = pass@;
    let ghost compiled = pipeline_cache@.compiled();
    let mut failed: Vec<DrawFailure> = Vec::new();
    let n = items.len();
    let mut i: usize = 0;
    while i < n
        invariant
            n == items.len(),
            i <= n,
            all == draw_items(items@),
            compiled == pipeline_cache@.compiled(),
            pass.wf(),
            pass@ == start.with(render(start.commands, all.take(i as int), resources@, compiled)),
            failed@ == failures(all.take(i as int), resources@, compiled),
        decreases n - i,
    {
        let item = &items[i];
        proof {
            assert(all.take(i + 1).drop_last() =~= all.take(i as int));
        }
        match draw_visbuffer(item, pass, resources, pipeline_cache) {
            RenderCommandResult::Failure(error) => {
                failed.push(DrawFailure { entity: item.entity(), error });
            },
            _ => {},
        }
        i += 1;
    }
    assert(all.take(n as int) =~= all);
    failed
}

impl<I: BinnedPhaseItem + CachedRenderPipelinePhaseItem> BinnedRenderPhase<I> {
    /// Encodes the commands that draw every entity of the phase: the
    /// multidrawable tier, then the batchable tier, then the unbatchable
    /// tier.
    pub fn render(
        &self,
        render_pass: &mut TrackedRenderPass,
        resources: &DrawResources,
        pipeline_cache: &PipelineCache,
    ) -> (failed: Vec<DrawFailure>)
        requires
            self.wf(),
            old(render_pass).wf(),
        ensures
            final(render_pass).wf(),
            final(render_pass)@ == old(render_pass)@.with(
                render(
                    old(render_pass)@.commands,
                    self@.items(),
                    resources@,
                    pipeline_cache@.compiled(),
                ),
            ),
            failed@ == failures(self@.items(), resources@, pipeline_cache@.compiled()),
    {
        let items = self.items();
        render_items(&items, render_pass, resources, pipeline_cache)
    }
}

} // verus!

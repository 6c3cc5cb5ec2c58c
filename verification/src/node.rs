//! The node that encodes the prepass of one view.

use crate::bind_group::{ViewUniformOffset, VisbufferPrepassViewBindGroup};
use crate::cache::PipelineCache;
use crate::draw::{failures, render, DrawFailure, DrawResources, DrawResourcesView};
use crate::encoder::{
    Command,
    CommandBuffer,
    CommandEncoder,
    RenderPassDescriptor,
    StoreOp,
    Viewport,
};
use crate::ids::{BindGroup, RetainedViewEntity, TextureView};
use crate::phase::BinnedRenderPhaseView;
use crate::phase_item::{AlphaMask3dVisbuffer, BinnedPhaseItem, Opaque3dVisbuffer};
use crate::views::ViewBinnedRenderPhases;
use vstd::prelude::*;

verus! {

/// What was extracted of the camera of a view.
#[derive(Clone, Copy, Debug, PartialEq, Eq)]
pub struct ExtractedCamera {
    pub viewport: Option<Viewport>,
}

/// What was extracted of a view.
#[derive(Clone, Copy, Debug, PartialEq, Eq)]
pub struct ExtractedView {
    pub retained_view_entity: RetainedViewEntity,
}

/// The depth texture of a view.
#[derive(Clone, Copy, Debug, PartialEq, Eq)]
pub struct ViewDepthTexture {
    pub view: TextureView,
}

/// The textures that the prepasses of a view write.
#[derive(Clone, Copy, Debug, PartialEq, Eq)]
pub struct ViewPrepassTextures {
    /// The visibility buffer, where the view has one.
    pub visbuffer: Option<TextureView>,
}

/// The resources of the render world that the node reads.
#[derive(Debug)]
pub struct World {
    pub opaque_visbuffer_phases: Option<ViewBinnedRenderPhases<Opaque3dVisbuffer>>,
    pub alpha_mask_visbuffer_phases: Option<ViewBinnedRenderPhases<AlphaMask3dVisbuffer>>,
    pub pipeline_cache: PipelineCache,
    pub prepass_view_bind_group: VisbufferPrepassViewBindGroup,
    /// The bind group of the meshes, where it was prepared.
    pub mesh_bind_group: Option<BindGroup>,
    /// The bind groups of the materials, at their indices.
    pub material_bind_groups: Vec<BindGroup>,
}

impl World {
    /// A world without phases, without pipelines or remembered
    /// specializations, and without bind groups.
    pub fn new() -> (world: World)
        ensures
            world.wf(),
            world.opaque_visbuffer_phases is None,
            world.alpha_mask_visbuffer_phases is None,
            world.pipeline_cache@.pipelines.len() == 0,
            world.pipeline_cache@.specializations.len() == 0,
            world.prepass_view_bind_group.0 is None,
            world.mesh_bind_group is None,
            world.material_bind_groups@.len() == 0,
    {
        World {
            opaque_visbuffer_phases: None,
            alpha_mask_visbuffer_phases: None,
            pipeline_cache: PipelineCache::new(),
            prepass_view_bind_group: VisbufferPrepassViewBindGroup(None),
            mesh_bind_group: None,
            material_bind_groups: Vec::new(),
        }
    }

    /// The phases and the pipeline cache of the world are well formed.
    pub open spec fn wf(&self) -> bool {
        &&& self.opaque_visbuffer_phases matches Some(phases) ==> phases.wf()
        &&& self.alpha_mask_visbuffer_phases matches Some(phases) ==> phases.wf()
        &&& self.pipeline_cache.wf()
    }

    /// The resources that the draws of a view with the given offset need.
    pub open spec fn draw_resources(&self, view_uniform_offset: ViewUniformOffset) -> DrawResourcesView {
        DrawResourcesView {
            view_bind_group: self.prepass_view_bind_group,
            view_uniform_offset,
            mesh_bind_group: self.mesh_bind_group,
            material_bind_groups: self.material_bind_groups@,
        }
    }
}

/// A resource that a pass cannot do without.
#[derive(Clone, Copy, Debug, PartialEq, Eq, Hash, Structural)]
pub enum MissingResource {
    /// The view has no visibility buffer to write to.
    VisbufferAttachment,
    /// The bind group of the view was not prepared.
    ViewBindGroup,
}

/// Why no pass was encoded for a view.
#[derive(Clone, Copy, Debug, PartialEq, Eq, Hash, Structural)]
pub enum SkipReason {
    /// The render world has no phases of one of the two kinds.
    PhasesMissing,
    /// The view has no phase of one of the two kinds.
    ViewNotPrepared,
    /// The two phases of the view hold no entity.
    NothingToDraw,
    /// A resource that the pass cannot do without is absent.
    ResourceMissing(MissingResource),
}

/// What came of the node for one view.
#[derive(Debug, PartialEq, Eq)]
pub enum NodeRunOutcome {
    /// No pass was opened and no command was encoded.
    Skipped(SkipReason),
    /// The pass was encoded and handed over.
    Submitted {
        command_buffer: CommandBuffer,
        /// The items that were left out, in the order of their phases.
        failures: Vec<DrawFailure>,
    },
}

/// Mathematical content of a [`NodeRunOutcome`].
pub enum NodeRunOutcomeView {
    Skipped(SkipReason),
    Submitted { label: &'static str, commands: Seq<Command>, failures: Seq<DrawFailure> },
}

impl View for NodeRunOutcome {
    type V = NodeRunOutcomeView;

    open spec fn view(&self) -> NodeRunOutcomeView {
        match self {
            NodeRunOutcome::Skipped(reason) => NodeRunOutcomeView::Skipped(*reason),
            NodeRunOutcome::Submitted { command_buffer, failures } => NodeRunOutcomeView::Submitted {
                label: command_buffer.label,
                commands: command_buffer.commands@,
                failures: failures@,
            },
        }
    }
}

/// What stands between a view and its pass, if anything does.
///
/// The phases are looked for first, then the visibility buffer. A view whose
/// two phases hold no entity gets no pass. The bind group of the view is
/// asked for last, when there is something to draw with it.
pub open spec fn skip_reason(
    view_prepass_textures: ViewPrepassTextures,
    opaque: Option<Option<BinnedRenderPhaseView>>,
    alpha_mask: Option<Option<BinnedRenderPhaseView>>,
    prepass_view_bind_group: VisbufferPrepassViewBindGroup,
) -> Option<SkipReason> {
    if opaque is None || alpha_mask is None {
        Some(SkipReason::PhasesMissing)
    } else if opaque->Some_0 is None || alpha_mask->Some_0 is None {
        Some(SkipReason::ViewNotPrepared)
    } else if view_prepass_textures.visbuffer is None {
        Some(SkipReason::ResourceMissing(MissingResource::VisbufferAttachment))
    } else if opaque->Some_0->Some_0.entities() == 0 && alpha_mask->Some_0->Some_0.entities() == 0 {
        Some(SkipReason::NothingToDraw)
    } else if prepass_view_bind_group.0 is None {
        Some(SkipReason::ResourceMissing(MissingResource::ViewBindGroup))
    } else {
        None
    }
}

/// The commands that open the pass of a view.
pub open spec fn pass_opening(
    camera: ExtractedCamera,
    view_depth_texture: ViewDepthTexture,
    visbuffer: TextureView,
) -> Seq<Command> {
    let begin = seq![
        Command::BeginRenderPass(
            RenderPassDescriptor {
                label: "visbuffer_prepass",
                color_attachment: visbuffer,
                depth_stencil_attachment: view_depth_texture.view,
                depth_store: StoreOp::Store,
            },
        ),
    ];
    match camera.viewport {
        Some(viewport) => begin.push(Command::SetViewport(viewport)),
        None => begin,
    }
}

/// The commands of the pass of a view: the pass is opened, the viewport of
/// the camera is set where it has one, the opaque phase is drawn, then the
/// alpha-mask phase, and the pass is closed.
pub open spec fn pass_commands(
    camera: ExtractedCamera,
    view_depth_texture: ViewDepthTexture,
    visbuffer: TextureView,
    opaque: BinnedRenderPhaseView,
    alpha_mask: BinnedRenderPhaseView,
    resources: DrawResourcesView,
    compiled: nat,
) -> Seq<Command> {
    render(
        render(
            pass_opening(camera, view_depth_texture, visbuffer),
            opaque.items(),
            resources,
            compiled,
        ),
        alpha_mask.items(),
        resources,
        compiled,
    ).push(Command::EndRenderPass)
}

/// What the node comes to for a view.
pub open spec fn run_outcome(
    camera: ExtractedCamera,
    view_depth_texture: ViewDepthTexture,
    view_prepass_textures: ViewPrepassTextures,
    opaque: Option<Option<BinnedRenderPhaseView>>,
    alpha_mask: Option<Option<BinnedRenderPhaseView>>,
    resources: DrawResourcesView,
    compiled: nat,
) -> NodeRunOutcomeView {
    match skip_reason(view_prepass_textures, opaque, alpha_mask, resources.view_bind_group) {
        Some(reason) => NodeRunOutcomeView::Skipped(reason),
        None => NodeRunOutcomeView::Submitted {
            label: "visbuffer_prepass_command_encoder",
            commands: pass_commands(
                camera,
                view_depth_texture,
                view_prepass_textures.visbuffer->Some_0,
                opaque->Some_0->Some_0,
                alpha_mask->Some_0->Some_0,
                resources,
                compiled,
            ),
            failures: failures(opaque->Some_0->Some_0.items(), resources, compiled) + failures(
                alpha_mask->Some_0->Some_0.items(),
                resources,
                compiled,
            ),
        },
    }
}

/// A view that supplies no entity gets no pass: whatever else holds of the
/// view and of the world, the node opens no pass and encodes no command.
pub proof fn theorem_no_items_no_pass(
    camera: ExtractedCamera,
    view_depth_texture: ViewDepthTexture,
    view_prepass_textures: ViewPrepassTextures,
    opaque: Option<Option<BinnedRenderPhaseView>>,
    alpha_mask: Option<Option<BinnedRenderPhaseView>>,
    resources: DrawResourcesView,
    compiled: nat,
)
    requires
        opaque matches Some(Some(phase)) ==> phase.entities() == 0,
        alpha_mask matches Some(Some(phase)) ==> phase.entities() == 0,
    ensures
        run_outcome(
            camera,
            view_depth_texture,
            view_prepass_textures,
            opaque,
            alpha_mask,
            resources,
            compiled,
        ) is Skipped,
{
}

/// In the pass of a view no bind of a pipeline is redundant and no draw call
/// draws nothing, whatever the phases hold.
pub proof fn theorem_pass_commands(
    camera: ExtractedCamera,
    view_depth_texture: ViewDepthTexture,
    visbuffer: TextureView,
    opaque: BinnedRenderPhaseView,
    alpha_mask: BinnedRenderPhaseView,
    resources: DrawResourcesView,
    compiled: nat,
)
    ensures
        crate::encoder::no_redundant_binds(
            pass_commands(
                camera,
                view_depth_texture,
                visbuffer,
                opaque,
                alpha_mask,
                resources,
                compiled,
            ),
        ),
        crate::encoder::no_degenerate_draws(
            pass_commands(
                camera,
                view_depth_texture,
                visbuffer,
                opaque,
                alpha_mask,
                resources,
                compiled,
            ),
        ),
{
    let opening = pass_opening(camera, view_depth_texture, visbuffer);
    let begin = Seq::<Command>::empty().push(opening[0]);
    crate::encoder::lemma_push_other(Seq::<Command>::empty(), opening[0]);
    assert(crate::encoder::no_degenerate_draws(begin)) by {
        assert forall|j: int| 0 <= j < begin.len() implies !(#[trigger] begin[j]).is_degenerate() by {}
    }
    if camera.viewport is Some {
        crate::encoder::lemma_push_other(begin, opening[1]);
        assert forall|j: int| 0 <= j < opening.len() implies !(
        #[trigger] opening[j]).is_degenerate() by {}
    }
    crate::draw::theorem_render(opening, opaque.items(), resources, compiled);
    let first = render(opening, opaque.items(), resources, compiled);
    crate::draw::theorem_render(first, alpha_mask.items(), resources, compiled);
    let second = render(first, alpha_mask.items(), resources, compiled);
    crate::encoder::lemma_push_other(second, Command::EndRenderPass);
    let all = second.push(Command::EndRenderPass);
    assert forall|j: int| 0 <= j < all.len() implies !(#[trigger] all[j]).is_degenerate() by {}
}

/// The phases of a kind after the node ran for `view`: where a pass was
/// submitted, the phase of the view has lost its bins; everything else is as
/// before.
pub open spec fn phases_after<I: BinnedPhaseItem>(
    before: Option<ViewBinnedRenderPhases<I>>,
    after: Option<ViewBinnedRenderPhases<I>>,
    view: RetainedViewEntity,
    submitted: bool,
) -> bool {
    match before {
        Some(before) => {
            &&& after matches Some(after)
            &&& after.phase_of(view) == match before.phase_of(view) {
                Some(phase) => Some(
                    if submitted {
                        phase.cleared()
                    } else {
                        phase
                    },
                ),
                None => None,
            }
            &&& forall|other: RetainedViewEntity|
                other != view ==> after.phase_of(other) == before.phase_of(other)
        },
        None => after is None,
    }
}

/// The world after the node ran for `view` and came to `outcome`: apart from
/// the two phases of the view, nothing has changed.
pub open spec fn world_after(
    before: World,
    after: World,
    view: RetainedViewEntity,
    outcome: NodeRunOutcomeView,
) -> bool {
    &&& phases_after(
        before.opaque_visbuffer_phases,
        after.opaque_visbuffer_phases,
        view,
        outcome is Submitted,
    )
    &&& phases_after(
        before.alpha_mask_visbuffer_phases,
        after.alpha_mask_visbuffer_phases,
        view,
        outcome is Submitted,
    )
    &&& after.pipeline_cache@ == before.pipeline_cache@
    &&& after.prepass_view_bind_group == before.prepass_view_bind_group
    &&& after.mesh_bind_group == before.mesh_bind_group
    &&& after.material_bind_groups@ == before.material_bind_groups@
}

/// The phase of a view among the phases of the world.
pub open spec fn phase_in<I: BinnedPhaseItem>(
    phases: Option<ViewBinnedRenderPhases<I>>,
    view: RetainedViewEntity,
) -> Option<Option<BinnedRenderPhaseView>> {
    match phases {
        Some(phases) => Some(phases.phase_of(view)),
        None => None,
    }
}

/// The node of the render graph that encodes the prepass of a view.
#[derive(Clone, Copy, Debug, Default)]
pub struct VisbufferPrepassNode;

impl VisbufferPrepassNode {
    /// Encodes the prepass of one view, and uses up its phases.
    ///
    /// Nothing is encoded, and no pass is opened, where the phases of the
    /// view or its visibility buffer are absent, where the phases hold no
    /// entity, or where the bind group of the view was not prepared: the
    /// world then stays as it is. Otherwise one pass is encoded: it draws the
    /// opaque phase and then the alpha-mask phase, leaves out the items that
    /// cannot be drawn, and reports them. The two phases of the view lose
    /// their bins on the way, and nothing else in the world changes.
    pub fn run(
        &self,
        camera: &ExtractedCamera,
        extracted_view: &ExtractedView,
        view_depth_texture: &ViewDepthTexture,
        view_prepass_textures: &ViewPrepassTextures,
        view_uniform_offset: &ViewUniformOffset,
        world: &mut World,
    ) -> (outcome: NodeRunOutcome)
        requires
            old(world).wf(),
        ensures
            final(world).wf(),
            outcome@ == run_outcome(
                *camera,
                *view_depth_texture,
                *view_prepass_textures,
                phase_in(old(world).opaque_visbuffer_phases, extracted_view.retained_view_entity),
                phase_in(old(world).alpha_mask_visbuffer_phases, extracted_view.retained_view_entity),
                old(world).draw_resources(*view_uniform_offset),
                old(world).pipeline_cache@.compiled(),
            ),
            outcome matches NodeRunOutcome::Submitted { command_buffer, .. } ==> {
                &&& crate::encoder::no_redundant_binds(command_buffer.commands@)
                &&& crate::encoder::no_degenerate_draws(command_buffer.commands@)
            },
            world_after(*old(world), *final(world), extracted_view.retained_view_entity, outcome@),
    {
        let view = extracted_view.retained_view_entity;
        let (opaque_visbuffer_phases, alpha_mask_visbuffer_phases) = match (
            &world.opaque_visbuffer_phases,
            &world.alpha_mask_visbuffer_phases,
        ) {
            (Some(opaque), Some(alpha_mask)) => (opaque, alpha_mask),
            _ => {
                return NodeRunOutcome::Skipped(SkipReason::PhasesMissing);
            },
        };

        let (opaque_visbuffer_phase, alpha_mask_visbuffer_phase) = match (
            opaque_visbuffer_phases.get(&view),
            alpha_mask_visbuffer_phases.get(&view),
        ) {
            (Some(opaque), Some(alpha_mask)) => (opaque, alpha_mask),
            _ => {
                return NodeRunOutcome::Skipped(SkipReason::ViewNotPrepared);
            },
        };

        let visbuffer_texture = match view_prepass_textures.visbuffer {
            Some(visbuffer_texture) => visbuffer_texture,
            None => {
                return NodeRunOutcome::Skipped(
                    SkipReason::ResourceMissing(MissingResource::VisbufferAttachment),
                );
            },
        };

        // A view without anything to draw gets no pass.
        if opaque_visbuffer_phase.is_empty() && alpha_mask_visbuffer_phase.is_empty() {
            return NodeRunOutcome::Skipped(SkipReason::NothingToDraw);
        }

        if world.prepass_view_bind_group.0.is_none() {
            return NodeRunOutcome::Skipped(
                SkipReason::ResourceMissing(MissingResource::ViewBindGroup),
            );
        }

        let material_bind_groups = world.material_bind_groups.clone();
        let resources = DrawResources {
            view_bind_group: world.prepass_view_bind_group,
            view_uniform_offset: *view_uniform_offset,
            mesh_bind_group: world.mesh_bind_group,
            material_bind_groups,
        };
        let ghost compiled = world.pipeline_cache@.compiled();

        // Command encoder setup
        let command_encoder = CommandEncoder::new("visbuffer_prepass_command_encoder");

        // Render pass setup
        let mut render_pass = command_encoder.begin_render_pass(
            RenderPassDescriptor {
                label: "visbuffer_prepass",
                color_attachment: visbuffer_texture,
                depth_stencil_attachment: view_depth_texture.view,
                depth_store: StoreOp::Store,
            },
        );
        match &camera.viewport {
            Some(viewport) => {
                render_pass.set_camera_viewport(viewport);
            },
            None => {},
        }

        // Opaque draws
        let mut failed: Vec<DrawFailure> = Vec::new();
        if !opaque_visbuffer_phase.is_empty() {
            failed = opaque_visbuffer_phase.render(
                &mut render_pass,
                &resources,
                &world.pipeline_cache,
            );
        } else {
            proof {
                opaque_visbuffer_phase@.lemma_no_entities_no_items();
            }
        }

        // Alpha masked draws
        if !alpha_mask_visbuffer_phase.is_empty() {
            let mut alpha_mask_failed = alpha_mask_visbuffer_phase.render(
                &mut render_pass,
                &resources,
                &world.pipeline_cache,
            );
            failed.append(&mut alpha_mask_failed);
        } else {
            proof {
                alpha_mask_visbuffer_phase@.lemma_no_entities_no_items();
            }
        }

        // The phases are used up while the pass is open.
        match &mut world.opaque_visbuffer_phases {
            Some(phases) => {
                phases.clear(view);
            },
            None => {},
        }
        match &mut world.alpha_mask_visbuffer_phases {
            Some(phases) => {
                phases.clear(view);
            },
            None => {},
        }

        // The pass is handed over. Nothing is touched from here on.
        let command_buffer = render_pass.finish();
        NodeRunOutcome::Submitted { command_buffer, failures: failed }
    }
}

} // verus!

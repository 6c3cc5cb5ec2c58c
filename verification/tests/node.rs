use std::marker::PhantomData;
use visbuffer::bind_group::{ViewUniformOffset, VisbufferPrepassViewBindGroup};
use visbuffer::cache::PipelineCache;
use visbuffer::descriptor::{PrimitiveTopology, RenderPipelineDescriptor};
use visbuffer::draw::{DrawError, DrawFailure};
use visbuffer::encoder::{Command, CommandBuffer, RenderPassDescriptor, StoreOp, Viewport};
use visbuffer::ids::{
    BindGroup, BindGroupLayout, CachedRenderPipelineId, DrawFunctionId, Entity, MainEntity,
    RetainedViewEntity, TextureView,
};
use visbuffer::layout::{
    MeshVertexAttributeId, MeshVertexBufferLayout, MissingVertexAttributeError, VertexAttribute,
    VertexBufferLayout, VertexFormat, VertexStepMode,
};
use visbuffer::material::{
    Material, MaterialPipeline, MaterialPipelineKey, MeshPipelineKey, SpecializedMeshPipelineError,
};
use visbuffer::node::{
    ExtractedCamera, ExtractedView, MissingResource, NodeRunOutcome, SkipReason, ViewDepthTexture,
    ViewPrepassTextures, VisbufferPrepassNode, World,
};
use visbuffer::views::ViewBinnedRenderPhases;
use visbuffer::phase::BinnedRenderPhaseType;
use visbuffer::phase_item::{
    AlphaMask3dVisbuffer, BinnedPhaseItem, Opaque3dVisbuffer, OpaqueNoLightmap3dBatchSetKey,
    OpaqueNoLightmap3dBinKey,
};
use visbuffer::pipeline::{MeshLayouts, ShaderRegistry, VisbufferPrepassPipeline};
use visbuffer::queue::{ExtractedMesh, SpecializationFailure};

const VIEW: RetainedViewEntity = RetainedViewEntity(1);

/// Refuses meshes that are drawn as points.
struct NoPoints;

fn refusal() -> SpecializedMeshPipelineError {
    SpecializedMeshPipelineError::MissingVertexAttribute(MissingVertexAttributeError {
        pipeline_type: Some("visbuffer"),
        id: MeshVertexAttributeId(1),
        name: "Vertex_Normal",
    })
}

impl Material for NoPoints {
    fn specialize(
        _pipeline: &MaterialPipeline,
        descriptor: RenderPipelineDescriptor,
        _layout: &MeshVertexBufferLayout,
        key: MaterialPipelineKey,
    ) -> Result<RenderPipelineDescriptor, SpecializedMeshPipelineError> {
        if key.mesh_key.primitive_topology == PrimitiveTopology::PointList {
            Err(refusal())
        } else {
            Ok(descriptor)
        }
    }
}

fn pipeline() -> VisbufferPrepassPipeline<NoPoints> {
    let l = BindGroupLayout(3);
    VisbufferPrepassPipeline {
        view_layout: BindGroupLayout(1),
        mesh_layouts: MeshLayouts {
            model_only: l,
            lightmapped: l,
            skinned: l,
            skinned_motion: l,
            morphed: l,
            morphed_motion: l,
            morphed_skinned: l,
            morphed_skinned_motion: l,
        },
        material_layout: BindGroupLayout(2),
        vertex_shader: None,
        fragment_shader: None,
        material_pipeline: MaterialPipeline { bindless: false },
        skins_use_uniform_buffers: false,
        depth_clip_control_supported: false,
        binding_arrays_are_usable: false,
        shaders: ShaderRegistry::new(),
        marker: PhantomData,
    }
}

fn key(primitive_topology: PrimitiveTopology) -> MaterialPipelineKey {
    MaterialPipelineKey {
        mesh_key: MeshPipelineKey {
            may_discard: false,
            unclipped_depth_ortho: false,
            morph_targets: false,
            lightmapped: false,
            motion_vector_prepass: false,
            primitive_topology,
            msaa_samples: 1,
        },
        bind_group_data: 0,
    }
}

fn mesh(entity: u64, asset_id: u64, topology: PrimitiveTopology, phase_type: BinnedRenderPhaseType) -> ExtractedMesh {
    ExtractedMesh {
        entity: (Entity(entity), MainEntity(Entity(entity))),
        asset_id,
        layout: MeshVertexBufferLayout::new(
            vec![MeshVertexAttributeId(0)],
            VertexBufferLayout {
                array_stride: 12,
                step_mode: VertexStepMode::Vertex,
                attributes: vec![VertexAttribute { format: VertexFormat(29), offset: 0, shader_location: 0 }],
            },
        )
        .unwrap(),
        key: key(topology),
        draw_function: DrawFunctionId(0),
        material_bind_group_index: Some(0),
        vertex_slab: 0,
        index_slab: None,
        phase_type,
    }
}

fn phases<I: BinnedPhaseItem>(multidraw: bool) -> ViewBinnedRenderPhases<I> {
    let mut phases = ViewBinnedRenderPhases::new();
    phases.prepare_for_new_frame(VIEW, multidraw);
    phases
}

fn world(
    opaque: ViewBinnedRenderPhases<Opaque3dVisbuffer>,
    alpha_mask: ViewBinnedRenderPhases<AlphaMask3dVisbuffer>,
    pipeline_cache: PipelineCache,
) -> World {
    World {
        opaque_visbuffer_phases: Some(opaque),
        alpha_mask_visbuffer_phases: Some(alpha_mask),
        pipeline_cache,
        prepass_view_bind_group: VisbufferPrepassViewBindGroup(Some(BindGroup(100))),
        mesh_bind_group: Some(BindGroup(200)),
        material_bind_groups: vec![BindGroup(300)],
    }
}

fn run_with(camera: ExtractedCamera, textures: ViewPrepassTextures, world: &mut World) -> NodeRunOutcome {
    VisbufferPrepassNode.run(
        &camera,
        &ExtractedView { retained_view_entity: VIEW },
        &ViewDepthTexture { view: TextureView(2) },
        &textures,
        &ViewUniformOffset { offset: 256 },
        world,
    )
}

fn run(world: &mut World) -> NodeRunOutcome {
    run_with(
        ExtractedCamera { viewport: None },
        ViewPrepassTextures { visbuffer: Some(TextureView(1)) },
        world,
    )
}

fn begin() -> Command {
    Command::BeginRenderPass(RenderPassDescriptor {
        label: "visbuffer_prepass",
        color_attachment: TextureView(1),
        depth_stencil_attachment: TextureView(2),
        depth_store: StoreOp::Store,
    })
}

fn bind(index: usize, bind_group: u64, dynamic_offset: Option<u32>) -> Command {
    Command::SetBindGroup { index, bind_group: BindGroup(bind_group), dynamic_offset }
}

fn submitted(outcome: NodeRunOutcome) -> (Vec<Command>, Vec<DrawFailure>) {
    match outcome {
        NodeRunOutcome::Submitted { command_buffer, failures } => {
            assert_eq!(command_buffer.label, "visbuffer_prepass_command_encoder");
            (command_buffer.commands, failures)
        }
        NodeRunOutcome::Skipped(reason) => panic!("skipped: {:?}", reason),
    }
}

fn draws(commands: &[Command]) -> Vec<Command> {
    commands.iter().copied().filter(|command| command.is_draw()).collect()
}

/// Two meshes that share a batch set and a bin, and one mesh of another pipeline and bin.
fn three_meshes(first_two: BinnedRenderPhaseType) -> Vec<ExtractedMesh> {
    vec![
        mesh(1, 10, PrimitiveTopology::TriangleList, first_two),
        mesh(2, 10, PrimitiveTopology::TriangleList, first_two),
        mesh(3, 20, PrimitiveTopology::LineList, BinnedRenderPhaseType::BatchableMesh),
    ]
}

fn queue_all(
    phases: &mut ViewBinnedRenderPhases<Opaque3dVisbuffer>,
    cache: &mut PipelineCache,
    meshes: &[ExtractedMesh],
) -> Vec<SpecializationFailure> {
    let p = pipeline();
    let mut failed = vec![];
    for mesh in meshes {
        match phases.queue(VIEW, cache, &p, mesh) {
            Ok(added) => assert!(added),
            Err(failure) => failed.push(failure),
        }
    }
    failed
}

#[test]
fn queuing_for_a_view_leaves_the_other_views_and_asks_nothing_for_an_unknown_view() {
    let mut opaque = phases::<Opaque3dVisbuffer>(false);
    opaque.prepare_for_new_frame(RetainedViewEntity(2), false);
    let mut cache = PipelineCache::new();
    let p = pipeline();
    let good = mesh(1, 10, PrimitiveTopology::TriangleList, BinnedRenderPhaseType::BatchableMesh);
    let bad = mesh(2, 10, PrimitiveTopology::PointList, BinnedRenderPhaseType::BatchableMesh);

    // A view that was not prepared: nothing is specialized, nothing binned.
    assert_eq!(opaque.queue(RetainedViewEntity(9), &mut cache, &p, &good), Ok(false));
    assert_eq!(opaque.queue(RetainedViewEntity(9), &mut cache, &p, &bad), Ok(false));
    assert_eq!(cache.compiled(), 0);
    assert!(opaque.get(&RetainedViewEntity(9)).is_none());

    assert_eq!(opaque.queue(VIEW, &mut cache, &p, &good), Ok(true));
    assert_eq!(
        opaque.queue(VIEW, &mut cache, &p, &bad),
        Err(SpecializationFailure {
            entity: MainEntity(Entity(2)),
            key: key(PrimitiveTopology::PointList),
            error: refusal(),
        })
    );
    assert_eq!(opaque.queue(RetainedViewEntity(2), &mut cache, &p, &good), Ok(true));
    assert_eq!(cache.compiled(), 1);
    assert_eq!(opaque.get(&VIEW).unwrap().len(), 1);
    assert_eq!(opaque.get(&RetainedViewEntity(2)).unwrap().len(), 1);
    let items = opaque.get(&VIEW).unwrap().items();
    assert_eq!(items.len(), 1);
    assert_eq!(items[0].batch_set_key, good.batch_set_key(CachedRenderPipelineId(0)));
    assert_eq!(items[0].representative_entity, good.entity);
}

#[test]
fn three_items_in_two_bins_give_two_draw_calls_without_multidraw() {
    let mut opaque = phases(false);
    let mut cache = PipelineCache::new();
    let failed = queue_all(&mut opaque, &mut cache, &three_meshes(BinnedRenderPhaseType::MultidrawableMesh));
    assert!(failed.is_empty());
    let (commands, failures) = submitted(run(&mut world(opaque, phases(false), cache)));
    assert!(failures.is_empty());
    assert_eq!(
        draws(&commands),
        vec![
            Command::Draw { mesh: 10, indexed: false, first_instance: 0, end_instance: 2 },
            Command::Draw { mesh: 20, indexed: false, first_instance: 2, end_instance: 3 },
        ]
    );
    assert_eq!(
        commands,
        vec![
            begin(),
            Command::SetRenderPipeline(CachedRenderPipelineId(0)),
            bind(0, 100, Some(256)),
            bind(1, 200, None),
            bind(2, 300, None),
            Command::Draw { mesh: 10, indexed: false, first_instance: 0, end_instance: 2 },
            Command::SetRenderPipeline(CachedRenderPipelineId(1)),
            bind(0, 100, Some(256)),
            bind(1, 200, None),
            bind(2, 300, None),
            Command::Draw { mesh: 20, indexed: false, first_instance: 2, end_instance: 3 },
            Command::EndRenderPass,
        ]
    );
}

#[test]
fn three_items_give_one_indirect_and_one_regular_call_with_multidraw() {
    let mut opaque = phases(true);
    let mut cache = PipelineCache::new();
    let failed = queue_all(&mut opaque, &mut cache, &three_meshes(BinnedRenderPhaseType::MultidrawableMesh));
    assert!(failed.is_empty());
    let (commands, failures) = submitted(run(&mut world(opaque, phases(true), cache)));
    assert!(failures.is_empty());
    assert_eq!(
        draws(&commands),
        vec![
            Command::MultiDrawIndirect {
                vertex_slab: 0,
                index_slab: None,
                first: 0,
                count: 1,
                batch_set_index: Some(0),
            },
            Command::Draw { mesh: 20, indexed: false, first_instance: 2, end_instance: 3 },
        ]
    );
}

#[test]
fn an_item_whose_specialization_fails_is_not_drawn_and_the_others_are() {
    let mut opaque = phases(false);
    let mut cache = PipelineCache::new();
    let meshes = vec![
        mesh(1, 10, PrimitiveTopology::TriangleList, BinnedRenderPhaseType::UnbatchableMesh),
        mesh(2, 20, PrimitiveTopology::PointList, BinnedRenderPhaseType::UnbatchableMesh),
        mesh(3, 30, PrimitiveTopology::TriangleList, BinnedRenderPhaseType::UnbatchableMesh),
    ];
    let failed = queue_all(&mut opaque, &mut cache, &meshes);
    assert_eq!(
        failed,
        vec![SpecializationFailure {
            entity: MainEntity(Entity(2)),
            key: key(PrimitiveTopology::PointList),
            error: refusal(),
        }]
    );
    assert_eq!(cache.compiled(), 1);
    assert_eq!(opaque.get(&VIEW).unwrap().len(), 2);
    let items = opaque.get(&VIEW).unwrap().items();
    let drawn: Vec<_> = items.iter().map(|item| item.representative_entity.0).collect();
    assert_eq!(drawn, vec![Entity(1), Entity(3)]);

    let (commands, failures) = submitted(run(&mut world(opaque, phases(false), cache)));
    assert!(failures.is_empty());
    assert_eq!(
        draws(&commands),
        vec![
            Command::Draw { mesh: 10, indexed: false, first_instance: 0, end_instance: 1 },
            Command::Draw { mesh: 30, indexed: false, first_instance: 1, end_instance: 2 },
        ]
    );
}

#[test]
fn queue_bins_what_specializes_and_hands_back_what_does_not() {
    let mut opaque = phases::<Opaque3dVisbuffer>(false);
    let mut cache = PipelineCache::new();
    let p = pipeline();
    // A phase of its own, to queue into directly.
    let mut phase = visbuffer::phase::BinnedRenderPhase::<Opaque3dVisbuffer>::new(false);
    let good = mesh(1, 10, PrimitiveTopology::TriangleList, BinnedRenderPhaseType::BatchableMesh);
    let bad = mesh(2, 10, PrimitiveTopology::PointList, BinnedRenderPhaseType::BatchableMesh);
    assert_eq!(phase.queue(&mut cache, &p, &good), Ok(true));
    assert_eq!(
        phase.queue(&mut cache, &p, &bad),
        Err(SpecializationFailure {
            entity: MainEntity(Entity(2)),
            key: key(PrimitiveTopology::PointList),
            error: refusal(),
        })
    );
    assert_eq!(phase.queue(&mut cache, &p, &good), Ok(true));
    assert_eq!(phase.len(), 2);
    assert_eq!(cache.compiled(), 1);
    let items = phase.items();
    assert_eq!(items.len(), 1);
    assert_eq!(
        items[0].batch_set_key,
        OpaqueNoLightmap3dBatchSetKey {
            pipeline: CachedRenderPipelineId(0),
            draw_function: DrawFunctionId(0),
            material_bind_group_index: Some(0),
            vertex_slab: 0,
            index_slab: None,
        }
    );
    assert_eq!(items[0].bin_key, OpaqueNoLightmap3dBinKey { asset_id: 10 });
    assert_eq!(items[0].batch_range, 0..2);

    assert_eq!(phase.add_specialized(&good, Ok(CachedRenderPipelineId(0))), Ok(true));
    assert_eq!(
        phase.add_specialized(&good, Err(refusal())),
        Err(SpecializationFailure { entity: MainEntity(Entity(1)), key: good.key, error: refusal() })
    );
    assert_eq!(phase.len(), 3);
    assert!(opaque.get(&VIEW).unwrap().is_empty());
    assert!(!opaque.add(
        RetainedViewEntity(99),
        good.batch_set_key(CachedRenderPipelineId(0)),
        good.bin_key(),
        good.entity,
        good.phase_type
    ));
}

#[test]
fn a_view_without_items_gets_no_pass() {
    let mut w = world(phases(true), phases(true), PipelineCache::new());
    assert_eq!(run(&mut w), NodeRunOutcome::Skipped(SkipReason::NothingToDraw));
    // Asking again changes nothing.
    assert_eq!(run(&mut w), NodeRunOutcome::Skipped(SkipReason::NothingToDraw));
}

#[test]
fn a_view_whose_bins_are_all_empty_gets_no_pass() {
    let mut opaque = phases(false);
    let mut cache = PipelineCache::new();
    queue_all(&mut opaque, &mut cache, &three_meshes(BinnedRenderPhaseType::BatchableMesh));
    // The bins stay and have no entity left.
    for entity in 1..=3 {
        assert_eq!(opaque.remove(VIEW, MainEntity(Entity(entity))), 1);
    }
    assert!(opaque.get(&VIEW).unwrap().is_empty());
    assert_eq!(
        run(&mut world(opaque, phases(false), cache)),
        NodeRunOutcome::Skipped(SkipReason::NothingToDraw)
    );
}

#[test]
fn an_empty_bin_gives_no_draw_call() {
    let mut opaque = phases(false);
    let mut cache = PipelineCache::new();
    queue_all(&mut opaque, &mut cache, &three_meshes(BinnedRenderPhaseType::BatchableMesh));
    // Of the two bins, that of the triangles loses its two entities.
    assert_eq!(opaque.remove(VIEW, MainEntity(Entity(1))), 1);
    assert_eq!(opaque.remove(VIEW, MainEntity(Entity(2))), 1);
    assert_eq!(opaque.remove(RetainedViewEntity(9), MainEntity(Entity(3))), 0);
    let (commands, failures) = submitted(run(&mut world(opaque, phases(false), cache)));
    assert!(failures.is_empty());
    assert_eq!(
        draws(&commands),
        vec![Command::Draw { mesh: 20, indexed: false, first_instance: 0, end_instance: 1 }]
    );
    assert_eq!(commands.len(), 7);
}

#[test]
fn the_alpha_mask_phase_is_drawn_behind_the_opaque_phase() {
    let mut opaque = phases(false);
    let mut alpha_mask = phases::<AlphaMask3dVisbuffer>(false);
    let mut cache = PipelineCache::new();
    queue_all(
        &mut opaque,
        &mut cache,
        &[mesh(1, 10, PrimitiveTopology::TriangleList, BinnedRenderPhaseType::BatchableMesh)],
    );
    let masked = mesh(2, 20, PrimitiveTopology::TriangleList, BinnedRenderPhaseType::BatchableMesh);
    alpha_mask.add(
        VIEW,
        masked.batch_set_key(CachedRenderPipelineId(0)),
        masked.bin_key(),
        masked.entity,
        masked.phase_type,
    );
    let viewport = Viewport { physical_position: (0, 0), physical_size: (320, 240), depth_bits: (0, 0x3f80_0000) };
    let outcome = run_with(
        ExtractedCamera { viewport: Some(viewport) },
        ViewPrepassTextures { visbuffer: Some(TextureView(1)) },
        &mut world(opaque, alpha_mask, cache),
    );
    assert_eq!(
        outcome,
        NodeRunOutcome::Submitted {
            command_buffer: CommandBuffer {
                label: "visbuffer_prepass_command_encoder",
                commands: vec![
                    begin(),
                    Command::SetViewport(viewport),
                    Command::SetRenderPipeline(CachedRenderPipelineId(0)),
                    bind(0, 100, Some(256)),
                    bind(1, 200, None),
                    bind(2, 300, None),
                    Command::Draw { mesh: 10, indexed: false, first_instance: 0, end_instance: 1 },
                    // The phases number their instances each for itself, and share the pipeline.
                    bind(0, 100, Some(256)),
                    bind(1, 200, None),
                    bind(2, 300, None),
                    Command::Draw { mesh: 20, indexed: false, first_instance: 0, end_instance: 1 },
                    Command::EndRenderPass,
                ],
            },
            failures: vec![],
        }
    );
}

#[test]
fn only_the_alpha_mask_phase_has_items() {
    let mut alpha_mask = phases::<AlphaMask3dVisbuffer>(false);
    let mut cache = PipelineCache::new();
    let mut scratch = phases::<Opaque3dVisbuffer>(false);
    queue_all(
        &mut scratch,
        &mut cache,
        &[mesh(1, 10, PrimitiveTopology::TriangleList, BinnedRenderPhaseType::BatchableMesh)],
    );
    let masked = mesh(2, 20, PrimitiveTopology::TriangleList, BinnedRenderPhaseType::UnbatchableMesh);
    alpha_mask.add(
        VIEW,
        masked.batch_set_key(CachedRenderPipelineId(0)),
        masked.bin_key(),
        masked.entity,
        masked.phase_type,
    );
    let (commands, failures) = submitted(run(&mut world(phases(false), alpha_mask, cache)));
    assert!(failures.is_empty());
    assert_eq!(draws(&commands).len(), 1);
}

#[test]
fn items_that_cannot_be_drawn_are_reported_phase_by_phase() {
    let mut opaque = phases(false);
    let mut alpha_mask = phases::<AlphaMask3dVisbuffer>(false);
    let mut cache = PipelineCache::new();
    queue_all(
        &mut opaque,
        &mut cache,
        &[mesh(1, 10, PrimitiveTopology::TriangleList, BinnedRenderPhaseType::BatchableMesh)],
    );
    let mut unbound = mesh(2, 20, PrimitiveTopology::TriangleList, BinnedRenderPhaseType::BatchableMesh);
    unbound.material_bind_group_index = None;
    opaque.add(
        VIEW,
        unbound.batch_set_key(CachedRenderPipelineId(0)),
        unbound.bin_key(),
        unbound.entity,
        unbound.phase_type,
    );
    let stale = mesh(3, 30, PrimitiveTopology::TriangleList, BinnedRenderPhaseType::BatchableMesh);
    alpha_mask.add(
        VIEW,
        stale.batch_set_key(CachedRenderPipelineId(7)),
        stale.bin_key(),
        stale.entity,
        stale.phase_type,
    );
    let (commands, failures) = submitted(run(&mut world(opaque, alpha_mask, cache)));
    assert_eq!(
        failures,
        vec![
            DrawFailure { entity: Entity(2), error: DrawError::MissingMaterialBindGroup },
            DrawFailure { entity: Entity(3), error: DrawError::PipelineNotCached },
        ]
    );
    assert_eq!(
        draws(&commands),
        vec![Command::Draw { mesh: 10, indexed: false, first_instance: 0, end_instance: 1 }]
    );
}

#[test]
fn a_pass_whose_items_all_fail_is_opened_and_closed() {
    let mut opaque = phases(false);
    let stale = mesh(3, 30, PrimitiveTopology::TriangleList, BinnedRenderPhaseType::BatchableMesh);
    opaque.add(
        VIEW,
        stale.batch_set_key(CachedRenderPipelineId(0)),
        stale.bin_key(),
        stale.entity,
        stale.phase_type,
    );
    let (commands, failures) = submitted(run(&mut world(opaque, phases(false), PipelineCache::new())));
    assert_eq!(commands, vec![begin(), Command::EndRenderPass]);
    assert_eq!(failures, vec![DrawFailure { entity: Entity(3), error: DrawError::PipelineNotCached }]);
}

fn world_with_one_item() -> World {
    let mut opaque = phases(false);
    let mut cache = PipelineCache::new();
    queue_all(
        &mut opaque,
        &mut cache,
        &[mesh(1, 10, PrimitiveTopology::TriangleList, BinnedRenderPhaseType::BatchableMesh)],
    );
    world(opaque, phases(false), cache)
}

#[test]
fn a_new_world_holds_nothing() {
    let mut w = World::new();
    assert!(w.opaque_visbuffer_phases.is_none());
    assert!(w.alpha_mask_visbuffer_phases.is_none());
    assert_eq!(w.pipeline_cache.compiled(), 0);
    assert_eq!(
        w.pipeline_cache.lookup(key(PrimitiveTopology::TriangleList), &mesh(1, 1, PrimitiveTopology::TriangleList, BinnedRenderPhaseType::BatchableMesh).layout),
        None
    );
    assert_eq!(w.prepass_view_bind_group, VisbufferPrepassViewBindGroup(None));
    assert_eq!(w.mesh_bind_group, None);
    assert!(w.material_bind_groups.is_empty());
    assert_eq!(run(&mut w), NodeRunOutcome::Skipped(SkipReason::PhasesMissing));
}

#[test]
fn a_world_without_phases_gets_no_pass() {
    let mut w = world_with_one_item();
    w.alpha_mask_visbuffer_phases = None;
    assert_eq!(run(&mut w), NodeRunOutcome::Skipped(SkipReason::PhasesMissing));
    let mut w = world_with_one_item();
    w.opaque_visbuffer_phases = None;
    assert_eq!(run(&mut w), NodeRunOutcome::Skipped(SkipReason::PhasesMissing));
}

#[test]
fn a_view_that_was_not_prepared_gets_no_pass() {
    let mut w = world_with_one_item();
    w.alpha_mask_visbuffer_phases = Some(ViewBinnedRenderPhases::new());
    assert_eq!(run(&mut w), NodeRunOutcome::Skipped(SkipReason::ViewNotPrepared));

    let mut w = world_with_one_item();
    let outcome = VisbufferPrepassNode.run(
        &ExtractedCamera { viewport: None },
        &ExtractedView { retained_view_entity: RetainedViewEntity(2) },
        &ViewDepthTexture { view: TextureView(2) },
        &ViewPrepassTextures { visbuffer: Some(TextureView(1)) },
        &ViewUniformOffset { offset: 0 },
        &mut w,
    );
    assert_eq!(outcome, NodeRunOutcome::Skipped(SkipReason::ViewNotPrepared));
}

#[test]
fn a_view_without_a_visibility_buffer_gets_no_pass() {
    let mut w = world_with_one_item();
    let outcome = run_with(ExtractedCamera { viewport: None }, ViewPrepassTextures { visbuffer: None }, &mut w);
    // A pass that is skipped leaves the phase as it is.
    assert_eq!(w.opaque_visbuffer_phases.as_ref().unwrap().get(&VIEW).unwrap().len(), 1);
    assert_eq!(
        outcome,
        NodeRunOutcome::Skipped(SkipReason::ResourceMissing(MissingResource::VisbufferAttachment))
    );
}

#[test]
fn a_view_without_its_bind_group_gets_no_pass() {
    let mut w = world_with_one_item();
    w.prepass_view_bind_group = VisbufferPrepassViewBindGroup(None);
    assert_eq!(
        run(&mut w),
        NodeRunOutcome::Skipped(SkipReason::ResourceMissing(MissingResource::ViewBindGroup))
    );
    // Without an item the bind group is not asked for.
    let mut w = world(phases(false), phases(false), PipelineCache::new());
    w.prepass_view_bind_group = VisbufferPrepassViewBindGroup(None);
    assert_eq!(run(&mut w), NodeRunOutcome::Skipped(SkipReason::NothingToDraw));
}

#[test]
fn a_pass_uses_up_the_phases_of_its_view_and_no_others() {
    let mut opaque = phases(false);
    let mut alpha_mask = phases::<AlphaMask3dVisbuffer>(false);
    opaque.prepare_for_new_frame(RetainedViewEntity(2), false);
    let mut cache = PipelineCache::new();
    queue_all(
        &mut opaque,
        &mut cache,
        &[mesh(1, 10, PrimitiveTopology::TriangleList, BinnedRenderPhaseType::BatchableMesh)],
    );
    let m = mesh(2, 20, PrimitiveTopology::TriangleList, BinnedRenderPhaseType::BatchableMesh);
    let key = m.batch_set_key(CachedRenderPipelineId(0));
    assert!(alpha_mask.add(VIEW, key, m.bin_key(), m.entity, m.phase_type));
    assert!(opaque.add(RetainedViewEntity(2), key, m.bin_key(), m.entity, m.phase_type));

    let mut w = world(opaque, alpha_mask, cache);
    let (commands, _) = submitted(run(&mut w));
    assert_eq!(draws(&commands).len(), 2);

    let opaque = w.opaque_visbuffer_phases.as_ref().unwrap();
    let alpha_mask = w.alpha_mask_visbuffer_phases.as_ref().unwrap();
    assert!(opaque.get(&VIEW).unwrap().is_empty());
    assert!(alpha_mask.get(&VIEW).unwrap().is_empty());
    assert_eq!(opaque.get(&RetainedViewEntity(2)).unwrap().len(), 1);
    assert_eq!(w.pipeline_cache.compiled(), 1);
    assert_eq!(w.prepass_view_bind_group, VisbufferPrepassViewBindGroup(Some(BindGroup(100))));
    assert_eq!(w.mesh_bind_group, Some(BindGroup(200)));
    assert_eq!(w.material_bind_groups, vec![BindGroup(300)]);

    // What was drawn is not drawn again.
    assert_eq!(run(&mut w), NodeRunOutcome::Skipped(SkipReason::NothingToDraw));
}

#[test]
fn clearing_a_view_leaves_the_others() {
    let mut opaque = phases::<Opaque3dVisbuffer>(false);
    opaque.prepare_for_new_frame(RetainedViewEntity(2), false);
    let m = mesh(2, 20, PrimitiveTopology::TriangleList, BinnedRenderPhaseType::BatchableMesh);
    let key = m.batch_set_key(CachedRenderPipelineId(0));
    assert!(opaque.add(VIEW, key, m.bin_key(), m.entity, m.phase_type));
    assert!(opaque.add(RetainedViewEntity(2), key, m.bin_key(), m.entity, m.phase_type));
    opaque.clear(RetainedViewEntity(3));
    assert_eq!(opaque.get(&VIEW).unwrap().len(), 1);
    assert_eq!(opaque.get(&RetainedViewEntity(2)).unwrap().len(), 1);
    opaque.clear(VIEW);
    assert!(opaque.get(&VIEW).unwrap().is_empty());
    assert_eq!(opaque.get(&RetainedViewEntity(2)).unwrap().len(), 1);
    assert!(opaque.get(&RetainedViewEntity(3)).is_none());
}

#[test]
fn each_view_has_a_phase_of_its_own() {
    let mut opaque = ViewBinnedRenderPhases::<Opaque3dVisbuffer>::new();
    assert!(opaque.get(&VIEW).is_none());
    opaque.prepare_for_new_frame(VIEW, false);
    opaque.prepare_for_new_frame(RetainedViewEntity(2), true);
    let m = mesh(1, 10, PrimitiveTopology::TriangleList, BinnedRenderPhaseType::MultidrawableMesh);
    let add = |phases: &mut ViewBinnedRenderPhases<Opaque3dVisbuffer>, view: u64| {
        phases.add(
            RetainedViewEntity(view),
            m.batch_set_key(CachedRenderPipelineId(0)),
            m.bin_key(),
            m.entity,
            m.phase_type,
        )
    };
    assert!(add(&mut opaque, 1));
    assert!(add(&mut opaque, 2));
    assert!(add(&mut opaque, 2));
    assert!(!add(&mut opaque, 3));
    assert_eq!(opaque.get(&VIEW).unwrap().len(), 1);
    assert_eq!(opaque.get(&RetainedViewEntity(2)).unwrap().len(), 2);
    assert!(opaque.get(&RetainedViewEntity(3)).is_none());
    // The first view batches, the second multi-draws.
    assert_eq!(
        opaque.get(&VIEW).unwrap().items()[0].extra_index,
        visbuffer::phase_item::PhaseItemExtraIndex::Absent
    );
    assert_eq!(
        opaque.get(&RetainedViewEntity(2)).unwrap().items()[0].extra_index,
        visbuffer::phase_item::PhaseItemExtraIndex::IndirectParametersIndex {
            range: 0..1,
            batch_set_index: Some(0)
        }
    );

    opaque.prepare_for_new_frame(RetainedViewEntity(2), true);
    assert_eq!(opaque.get(&VIEW).unwrap().len(), 1);
    assert!(opaque.get(&RetainedViewEntity(2)).unwrap().is_empty());
}

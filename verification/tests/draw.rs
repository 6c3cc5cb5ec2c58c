use std::marker::PhantomData;
use visbuffer::bind_group::{ViewUniformOffset, VisbufferPrepassViewBindGroup};
use visbuffer::cache::PipelineCache;
use visbuffer::descriptor::PrimitiveTopology;
use visbuffer::draw::{
    draw_visbuffer, render_items, DrawError, DrawFailure, DrawResources, RenderCommandResult,
};
use visbuffer::encoder::{Command, CommandEncoder, RenderPassDescriptor, StoreOp, TrackedRenderPass};
use visbuffer::ids::{
    BindGroup, BindGroupLayout, CachedRenderPipelineId, DrawFunctionId, Entity, MainEntity, TextureView,
};
use visbuffer::layout::{
    MeshVertexAttributeId, MeshVertexBufferLayout, VertexAttribute, VertexBufferLayout, VertexFormat,
    VertexStepMode,
};
use visbuffer::material::{MaterialPipeline, MaterialPipelineKey, MeshPipelineKey, PlainMaterial};
use visbuffer::phase::{BinnedRenderPhase, BinnedRenderPhaseType};
use visbuffer::phase_item::{
    Opaque3dVisbuffer, OpaqueNoLightmap3dBatchSetKey, OpaqueNoLightmap3dBinKey, PhaseItemExtraIndex,
};
use visbuffer::pipeline::{MeshLayouts, ShaderRegistry, VisbufferPrepassPipeline};

/// A cache with `n` compiled pipelines.
fn cache(n: u32) -> PipelineCache {
    let l = BindGroupLayout(3);
    let pipeline = VisbufferPrepassPipeline::<PlainMaterial> {
        view_layout: BindGroupLayout(1),
        mesh_layouts: MeshLayouts {
            model_only: l,
            lightmapped: l,
            skinned: l,
            skinned_motion: l,
            morphed: l,
            morphed_motion: l,
            morphed_skinned: l,
            morphed_skinned_motion: l,
        },
        material_layout: BindGroupLayout(2),
        vertex_shader: None,
        fragment_shader: None,
        material_pipeline: MaterialPipeline { bindless: false },
        skins_use_uniform_buffers: false,
        depth_clip_control_supported: false,
        binding_arrays_are_usable: false,
        shaders: ShaderRegistry::new(),
        marker: PhantomData,
    };
    let layout = MeshVertexBufferLayout::new(
        vec![MeshVertexAttributeId(0)],
        VertexBufferLayout {
            array_stride: 12,
            step_mode: VertexStepMode::Vertex,
            attributes: vec![VertexAttribute { format: VertexFormat(29), offset: 0, shader_location: 0 }],
        },
    )
    .unwrap();
    let mut cache = PipelineCache::new();
    for msaa_samples in 0..n {
        let key = MaterialPipelineKey {
            mesh_key: MeshPipelineKey {
                may_discard: false,
                unclipped_depth_ortho: false,
                morph_targets: false,
                lightmapped: false,
                motion_vector_prepass: false,
                primitive_topology: PrimitiveTopology::TriangleList,
                msaa_samples,
            },
            bind_group_data: 0,
        };
        cache.specialize(&pipeline, key, &layout).unwrap();
    }
    cache
}

fn resources() -> DrawResources {
    DrawResources {
        view_bind_group: VisbufferPrepassViewBindGroup(Some(BindGroup(100))),
        view_uniform_offset: ViewUniformOffset { offset: 256 },
        mesh_bind_group: Some(BindGroup(200)),
        material_bind_groups: vec![BindGroup(300), BindGroup(301)],
    }
}

fn item(pipeline: usize, material: Option<u32>, batch_range: std::ops::Range<u32>) -> Opaque3dVisbuffer {
    Opaque3dVisbuffer {
        batch_set_key: OpaqueNoLightmap3dBatchSetKey {
            pipeline: CachedRenderPipelineId(pipeline),
            draw_function: DrawFunctionId(0),
            material_bind_group_index: material,
            vertex_slab: 0,
            index_slab: None,
        },
        bin_key: OpaqueNoLightmap3dBinKey { asset_id: 1 },
        representative_entity: (Entity(batch_range.start as u64), MainEntity(Entity(0))),
        batch_range,
        extra_index: PhaseItemExtraIndex::Absent,
    }
}

fn begin() -> Command {
    Command::BeginRenderPass(RenderPassDescriptor {
        label: "pass",
        color_attachment: TextureView(1),
        depth_stencil_attachment: TextureView(2),
        depth_store: StoreOp::Store,
    })
}

fn open_pass() -> TrackedRenderPass {
    match begin() {
        Command::BeginRenderPass(descriptor) => {
            CommandEncoder::new("encoder").begin_render_pass(descriptor)
        }
        other => panic!("{:?} opens no pass", other),
    }
}

fn bind(index: usize, bind_group: u64, dynamic_offset: Option<u32>) -> Command {
    Command::SetBindGroup { index, bind_group: BindGroup(bind_group), dynamic_offset }
}

fn draw_calls(commands: &[Command]) -> usize {
    commands.iter().filter(|command| command.is_draw()).count()
}

fn pipeline_binds(commands: &[Command]) -> Vec<usize> {
    commands
        .iter()
        .filter_map(|command| match command {
            Command::SetRenderPipeline(pipeline) => Some(pipeline.0),
            _ => None,
        })
        .collect()
}

#[test]
fn an_item_binds_its_pipeline_its_bind_groups_and_draws() {
    let mut pass = open_pass();
    let result = draw_visbuffer(&item(1, Some(1), 4..9), &mut pass, &resources(), &cache(2));
    assert_eq!(result, RenderCommandResult::Success);
    assert_eq!(
        pass.finish().commands,
        vec![
            begin(),
            Command::SetRenderPipeline(CachedRenderPipelineId(1)),
            bind(0, 100, Some(256)),
            bind(1, 200, None),
            bind(2, 301, None),
            Command::Draw { mesh: 1, indexed: false, first_instance: 4, end_instance: 9 },
            Command::EndRenderPass,
        ]
    );
}

#[test]
fn an_indexed_item_with_a_dynamic_offset() {
    let mut it = item(0, Some(0), 0..1);
    it.batch_set_key.index_slab = Some(3);
    it.extra_index = PhaseItemExtraIndex::DynamicOffset(512);
    let mut pass = open_pass();
    assert_eq!(draw_visbuffer(&it, &mut pass, &resources(), &cache(1)), RenderCommandResult::Success);
    assert_eq!(
        pass.finish().commands[2..],
        [
            bind(0, 100, Some(256)),
            bind(1, 200, Some(512)),
            bind(2, 300, None),
            Command::Draw { mesh: 1, indexed: true, first_instance: 0, end_instance: 1 },
            Command::EndRenderPass,
        ]
    );
}

#[test]
fn an_item_with_indirect_parameters_is_multi_drawn() {
    let mut it = item(0, Some(0), 0..6);
    it.batch_set_key.vertex_slab = 8;
    it.batch_set_key.index_slab = Some(9);
    it.extra_index = PhaseItemExtraIndex::IndirectParametersIndex { range: 10..13, batch_set_index: Some(4) };
    let mut pass = open_pass();
    assert_eq!(draw_visbuffer(&it, &mut pass, &resources(), &cache(1)), RenderCommandResult::Success);
    let commands = pass.finish().commands;
    assert_eq!(
        commands[5],
        Command::MultiDrawIndirect {
            vertex_slab: 8,
            index_slab: Some(9),
            first: 10,
            count: 3,
            batch_set_index: Some(4)
        }
    );
    assert_eq!(draw_calls(&commands), 1);
}

#[test]
fn an_item_that_covers_nothing_is_skipped() {
    let mut inverted = item(0, Some(0), 5..5);
    inverted.batch_range = std::ops::Range { start: 6, end: 5 };
    let mut no_parameters = item(0, Some(0), 0..3);
    no_parameters.extra_index =
        PhaseItemExtraIndex::IndirectParametersIndex { range: 7..7, batch_set_index: None };
    for it in [item(0, Some(0), 5..5), inverted, no_parameters] {
        let mut pass = open_pass();
        assert_eq!(draw_visbuffer(&it, &mut pass, &resources(), &cache(1)), RenderCommandResult::Skip);
        assert_eq!(pass.finish().commands, vec![begin(), Command::EndRenderPass]);
    }
}

#[test]
fn an_item_without_a_cached_pipeline_fails_and_records_nothing() {
    let mut pass = open_pass();
    let result = draw_visbuffer(&item(2, Some(0), 0..1), &mut pass, &resources(), &cache(2));
    assert_eq!(result, RenderCommandResult::Failure(DrawError::PipelineNotCached));
    assert_eq!(pass.finish().commands, vec![begin(), Command::EndRenderPass]);
}

#[test]
fn an_item_without_the_bind_group_of_its_view_fails_and_records_nothing() {
    let mut without = resources();
    without.view_bind_group = VisbufferPrepassViewBindGroup(None);
    let mut pass = open_pass();
    let result = draw_visbuffer(&item(0, Some(0), 0..1), &mut pass, &without, &cache(1));
    assert_eq!(result, RenderCommandResult::Failure(DrawError::MissingViewBindGroup));
    assert_eq!(pass.finish().commands, vec![begin(), Command::EndRenderPass]);
}

#[test]
fn an_item_without_a_mesh_bind_group_fails_and_records_nothing() {
    let mut without = resources();
    without.mesh_bind_group = None;
    let mut pass = open_pass();
    let result = draw_visbuffer(&item(0, Some(0), 0..1), &mut pass, &without, &cache(1));
    assert_eq!(result, RenderCommandResult::Failure(DrawError::MissingMeshBindGroup));
    assert_eq!(pass.finish().commands, vec![begin(), Command::EndRenderPass]);
}

#[test]
fn an_item_without_a_material_bind_group_fails_and_records_nothing() {
    for material in [None, Some(2), Some(u32::MAX)] {
        let mut pass = open_pass();
        let result = draw_visbuffer(&item(0, material, 0..1), &mut pass, &resources(), &cache(1));
        assert_eq!(result, RenderCommandResult::Failure(DrawError::MissingMaterialBindGroup));
        assert_eq!(pass.finish().commands, vec![begin(), Command::EndRenderPass]);
    }
}

#[test]
fn the_failures_are_looked_for_in_a_fixed_order() {
    let mut without = resources();
    without.view_bind_group = VisbufferPrepassViewBindGroup(None);
    without.mesh_bind_group = None;
    let mut pass = open_pass();
    // Nothing to draw comes before everything, the pipeline before the bind groups,
    // and the bind groups in the order of their indices.
    assert_eq!(draw_visbuffer(&item(9, None, 3..3), &mut pass, &without, &cache(1)), RenderCommandResult::Skip);
    assert_eq!(
        draw_visbuffer(&item(9, None, 0..1), &mut pass, &without, &cache(1)),
        RenderCommandResult::Failure(DrawError::PipelineNotCached)
    );
    assert_eq!(
        draw_visbuffer(&item(0, None, 0..1), &mut pass, &without, &cache(1)),
        RenderCommandResult::Failure(DrawError::MissingViewBindGroup)
    );
    without.view_bind_group = VisbufferPrepassViewBindGroup(Some(BindGroup(100)));
    assert_eq!(
        draw_visbuffer(&item(0, None, 0..1), &mut pass, &without, &cache(1)),
        RenderCommandResult::Failure(DrawError::MissingMeshBindGroup)
    );
    without.mesh_bind_group = Some(BindGroup(200));
    assert_eq!(
        draw_visbuffer(&item(0, None, 0..1), &mut pass, &without, &cache(1)),
        RenderCommandResult::Failure(DrawError::MissingMaterialBindGroup)
    );
    assert_eq!(pass.len(), 1);
}

#[test]
fn consecutive_items_with_one_pipeline_bind_it_once() {
    let items = vec![
        item(0, Some(0), 0..1),
        item(0, Some(1), 1..2),
        item(0, Some(0), 2..3),
        item(1, Some(0), 3..4),
        item(1, Some(0), 4..5),
        item(0, Some(0), 5..6),
    ];
    let mut pass = open_pass();
    let failed = render_items(&items, &mut pass, &resources(), &cache(2));
    assert!(failed.is_empty());
    let commands = pass.finish().commands;
    assert_eq!(pipeline_binds(&commands), vec![0, 1, 0]);
    assert_eq!(draw_calls(&commands), 6);
    // Behind its first item, a group records bind groups and draw calls only.
    assert_eq!(
        commands[6..10],
        [
            bind(0, 100, Some(256)),
            bind(1, 200, None),
            bind(2, 301, None),
            Command::Draw { mesh: 1, indexed: false, first_instance: 1, end_instance: 2 },
        ]
    );
}

#[test]
fn a_failing_item_is_reported_and_the_others_are_drawn() {
    let items = vec![
        item(0, Some(0), 0..1),
        item(5, Some(0), 1..2),
        item(0, None, 2..3),
        item(0, Some(0), 3..3),
        item(0, Some(1), 4..6),
    ];
    let mut pass = open_pass();
    let failed = render_items(&items, &mut pass, &resources(), &cache(1));
    assert_eq!(
        failed,
        vec![
            DrawFailure { entity: Entity(1), error: DrawError::PipelineNotCached },
            DrawFailure { entity: Entity(2), error: DrawError::MissingMaterialBindGroup },
        ]
    );
    assert_eq!(
        pass.finish().commands,
        vec![
            begin(),
            Command::SetRenderPipeline(CachedRenderPipelineId(0)),
            bind(0, 100, Some(256)),
            bind(1, 200, None),
            bind(2, 300, None),
            Command::Draw { mesh: 1, indexed: false, first_instance: 0, end_instance: 1 },
            bind(0, 100, Some(256)),
            bind(1, 200, None),
            bind(2, 301, None),
            Command::Draw { mesh: 1, indexed: false, first_instance: 4, end_instance: 6 },
            Command::EndRenderPass,
        ]
    );
}

#[test]
fn no_items_record_nothing() {
    let mut pass = open_pass();
    let failed = render_items(&Vec::<Opaque3dVisbuffer>::new(), &mut pass, &resources(), &cache(0));
    assert!(failed.is_empty());
    assert_eq!(pass.finish().commands, vec![begin(), Command::EndRenderPass]);
}

#[test]
fn a_phase_renders_its_items_tier_by_tier() {
    let key = |pipeline: usize| OpaqueNoLightmap3dBatchSetKey {
        pipeline: CachedRenderPipelineId(pipeline),
        draw_function: DrawFunctionId(0),
        material_bind_group_index: Some(0),
        vertex_slab: 0,
        index_slab: Some(0),
    };
    let bin = |asset_id: u64| OpaqueNoLightmap3dBinKey { asset_id };
    let entity = |n: u64| (Entity(n), MainEntity(Entity(n)));
    let mut phase = BinnedRenderPhase::<Opaque3dVisbuffer>::new(true);
    phase.add(key(1), bin(1), entity(1), BinnedRenderPhaseType::UnbatchableMesh);
    phase.add(key(1), bin(1), entity(2), BinnedRenderPhaseType::UnbatchableMesh);
    phase.add(key(1), bin(2), entity(3), BinnedRenderPhaseType::BatchableMesh);
    phase.add(key(0), bin(3), entity(4), BinnedRenderPhaseType::BatchableMesh);
    phase.add(key(0), bin(3), entity(5), BinnedRenderPhaseType::BatchableMesh);
    phase.add(key(1), bin(4), entity(6), BinnedRenderPhaseType::MultidrawableMesh);
    phase.add(key(1), bin(5), entity(7), BinnedRenderPhaseType::MultidrawableMesh);

    let mut pass = open_pass();
    let failed = phase.render(&mut pass, &resources(), &cache(2));
    assert!(failed.is_empty());
    let commands = pass.finish().commands;
    let calls: Vec<_> = commands.iter().copied().filter(|command| command.is_draw()).collect();
    assert_eq!(
        calls,
        vec![
            Command::MultiDrawIndirect {
                vertex_slab: 0,
                index_slab: Some(0),
                first: 0,
                count: 2,
                batch_set_index: Some(0),
            },
            Command::Draw { mesh: 3, indexed: true, first_instance: 2, end_instance: 4 },
            Command::Draw { mesh: 2, indexed: true, first_instance: 4, end_instance: 5 },
            Command::Draw { mesh: 1, indexed: true, first_instance: 5, end_instance: 6 },
            Command::Draw { mesh: 1, indexed: true, first_instance: 6, end_instance: 7 },
        ]
    );
    // Pipeline 1 for the multi-draw, 0 and 1 for the batches; the single draws keep 1.
    assert_eq!(pipeline_binds(&commands), vec![1, 0, 1]);
}

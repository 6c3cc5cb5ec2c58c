use std::marker::PhantomData;
use std::sync::atomic::{AtomicUsize, Ordering};
use visbuffer::cache::PipelineCache;
use visbuffer::descriptor::{PrimitiveTopology, RenderPipelineDescriptor};
use visbuffer::ids::{BindGroupLayout, CachedRenderPipelineId};
use visbuffer::layout::{
    MeshVertexAttributeId, MeshVertexBufferLayout, MissingVertexAttributeError, VertexAttribute,
    VertexBufferLayout, VertexFormat, VertexStepMode,
};
use visbuffer::material::{
    Material, MaterialPipeline, MaterialPipelineKey, MeshPipelineKey, PlainMaterial,
    SpecializedMeshPipelineError,
};
use visbuffer::pipeline::{MeshLayouts, ShaderRegistry, VisbufferPrepassPipeline};

fn pipeline<M: Material>() -> VisbufferPrepassPipeline<M> {
    let l = BindGroupLayout(3);
    VisbufferPrepassPipeline {
        view_layout: BindGroupLayout(1),
        mesh_layouts: MeshLayouts {
            model_only: l,
            lightmapped: l,
            skinned: l,
            skinned_motion: l,
            morphed: l,
            morphed_motion: l,
            morphed_skinned: l,
            morphed_skinned_motion: l,
        },
        material_layout: BindGroupLayout(2),
        vertex_shader: None,
        fragment_shader: None,
        material_pipeline: MaterialPipeline { bindless: false },
        skins_use_uniform_buffers: false,
        depth_clip_control_supported: false,
        binding_arrays_are_usable: false,
        shaders: ShaderRegistry::new(),
        marker: PhantomData,
    }
}

fn key(msaa_samples: u32, bind_group_data: u64) -> MaterialPipelineKey {
    MaterialPipelineKey {
        mesh_key: MeshPipelineKey {
            may_discard: false,
            unclipped_depth_ortho: false,
            morph_targets: false,
            lightmapped: false,
            motion_vector_prepass: false,
            primitive_topology: PrimitiveTopology::TriangleList,
            msaa_samples,
        },
        bind_group_data,
    }
}

fn layout(ids: &[u64]) -> MeshVertexBufferLayout {
    MeshVertexBufferLayout::new(
        ids.iter().map(|id| MeshVertexAttributeId(*id)).collect(),
        VertexBufferLayout {
            array_stride: 12 * ids.len() as u64,
            step_mode: VertexStepMode::Vertex,
            attributes: (0..ids.len())
                .map(|i| VertexAttribute {
                    format: VertexFormat(VertexFormat::FLOAT32X3),
                    offset: 12 * i as u64,
                    shader_location: 0,
                })
                .collect(),
        },
    )
    .unwrap()
}

static COUNTED: AtomicUsize = AtomicUsize::new(0);

/// Counts how often it is asked to specialize.
struct Counting;

impl Material for Counting {
    fn specialize(
        _pipeline: &MaterialPipeline,
        descriptor: RenderPipelineDescriptor,
        _layout: &MeshVertexBufferLayout,
        _key: MaterialPipelineKey,
    ) -> Result<RenderPipelineDescriptor, SpecializedMeshPipelineError> {
        COUNTED.fetch_add(1, Ordering::SeqCst);
        Ok(descriptor)
    }
}

#[test]
fn specializing_twice_compiles_once() {
    let p = pipeline::<Counting>();
    let mut cache = PipelineCache::new();
    let l = layout(&[0]);
    let first = cache.specialize(&p, key(1, 0), &l);
    assert_eq!(first, Ok(CachedRenderPipelineId(0)));
    assert_eq!(cache.compiled(), 1);
    assert_eq!(COUNTED.load(Ordering::SeqCst), 1);

    let second = cache.specialize(&p, key(1, 0), &l);
    assert_eq!(second, first);
    assert_eq!(cache.compiled(), 1);
    assert_eq!(COUNTED.load(Ordering::SeqCst), 1);
}

#[test]
fn a_new_cache_holds_nothing() {
    let cache = PipelineCache::new();
    assert_eq!(cache.compiled(), 0);
    assert!(!cache.contains(CachedRenderPipelineId(0)));
    assert!(cache.get(CachedRenderPipelineId(0)).is_none());
    assert_eq!(cache.lookup(key(1, 0), &layout(&[0])), None);
}

#[test]
fn each_key_and_each_layout_gets_its_own_pipeline() {
    let p = pipeline::<PlainMaterial>();
    let mut cache = PipelineCache::new();
    assert_eq!(cache.specialize(&p, key(1, 0), &layout(&[0])), Ok(CachedRenderPipelineId(0)));
    assert_eq!(cache.specialize(&p, key(4, 0), &layout(&[0])), Ok(CachedRenderPipelineId(1)));
    assert_eq!(cache.specialize(&p, key(1, 9), &layout(&[0])), Ok(CachedRenderPipelineId(2)));
    assert_eq!(cache.specialize(&p, key(1, 0), &layout(&[0, 2])), Ok(CachedRenderPipelineId(3)));
    assert_eq!(cache.compiled(), 4);

    assert_eq!(cache.specialize(&p, key(4, 0), &layout(&[0])), Ok(CachedRenderPipelineId(1)));
    assert_eq!(cache.lookup(key(1, 0), &layout(&[0, 2])), Some(CachedRenderPipelineId(3)));
    assert_eq!(cache.lookup(key(8, 0), &layout(&[0])), None);
    assert_eq!(cache.compiled(), 4);

    assert!(cache.contains(CachedRenderPipelineId(3)));
    assert!(!cache.contains(CachedRenderPipelineId(4)));
    let compiled = cache.get(CachedRenderPipelineId(1)).unwrap();
    assert_eq!(compiled, &p.base_descriptor(key(4, 0), &layout(&[0])).unwrap());
    assert_eq!(compiled.multisample.count, 4);
}

/// Refuses keys with bind group data 13.
struct Superstitious;

fn refusal() -> SpecializedMeshPipelineError {
    SpecializedMeshPipelineError::MissingVertexAttribute(MissingVertexAttributeError {
        pipeline_type: None,
        id: MeshVertexAttributeId(13),
        name: "Unlucky",
    })
}

impl Material for Superstitious {
    fn specialize(
        _pipeline: &MaterialPipeline,
        descriptor: RenderPipelineDescriptor,
        _layout: &MeshVertexBufferLayout,
        key: MaterialPipelineKey,
    ) -> Result<RenderPipelineDescriptor, SpecializedMeshPipelineError> {
        if key.bind_group_data == 13 {
            Err(refusal())
        } else {
            Ok(descriptor)
        }
    }
}

#[test]
fn a_failed_specialization_leaves_no_trace() {
    let p = pipeline::<Superstitious>();
    let mut cache = PipelineCache::new();
    let l = layout(&[0]);
    assert_eq!(cache.specialize(&p, key(1, 13), &l), Err(refusal()));
    assert_eq!(cache.compiled(), 0);
    assert_eq!(cache.lookup(key(1, 13), &l), None);
    // It fails again, and the next success takes the first handle.
    assert_eq!(cache.specialize(&p, key(1, 13), &l), Err(refusal()));
    assert_eq!(cache.specialize(&p, key(1, 1), &l), Ok(CachedRenderPipelineId(0)));
    assert_eq!(cache.compiled(), 1);
}

#[test]
fn record_answers_from_memory_where_it_can() {
    let p = pipeline::<PlainMaterial>();
    let mut cache = PipelineCache::new();
    let l = layout(&[0]);
    let first = p.base_descriptor(key(1, 0), &l).unwrap();
    let other = p.base_descriptor(key(2, 0), &l).unwrap();

    assert_eq!(cache.record(key(1, 0), &l, Err(refusal())), Err(refusal()));
    assert_eq!(cache.compiled(), 0);

    assert_eq!(cache.record(key(1, 0), &l, Ok(first)), Ok(CachedRenderPipelineId(0)));
    assert_eq!(cache.compiled(), 1);

    // What is remembered wins over a later outcome, be it a descriptor or a failure.
    assert_eq!(cache.record(key(1, 0), &l, Ok(other)), Ok(CachedRenderPipelineId(0)));
    assert_eq!(cache.record(key(1, 0), &l, Err(refusal())), Ok(CachedRenderPipelineId(0)));
    assert_eq!(cache.compiled(), 1);
    assert_eq!(cache.get(CachedRenderPipelineId(0)).unwrap().multisample.count, 1);
}

#[test]
fn invalidation_forgets_specializations_and_keeps_pipelines() {
    let p = pipeline::<PlainMaterial>();
    let mut cache = PipelineCache::new();
    let l = layout(&[0]);
    assert_eq!(cache.specialize(&p, key(1, 0), &l), Ok(CachedRenderPipelineId(0)));
    cache.invalidate();
    assert_eq!(cache.lookup(key(1, 0), &l), None);
    assert_eq!(cache.compiled(), 1);
    assert!(cache.contains(CachedRenderPipelineId(0)));
    assert!(cache.get(CachedRenderPipelineId(0)).is_some());
    // The same key is compiled anew, under a handle of its own.
    assert_eq!(cache.specialize(&p, key(1, 0), &l), Ok(CachedRenderPipelineId(1)));
    assert_eq!(cache.compiled(), 2);
}

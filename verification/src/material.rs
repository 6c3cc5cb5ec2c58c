//! What a material contributes to the prepass pipeline.

use crate::descriptor::{PrimitiveTopology, RenderPipelineDescriptor};
use crate::ids::ShaderHandle;
use crate::layout::{MeshVertexBufferLayout, MissingVertexAttributeError};
use vstd::prelude::*;

verus! {

/// The features of a mesh and of the view it is drawn in that select a
/// pipeline variant.
#[derive(Clone, Copy, Debug, PartialEq, Eq, Hash, Structural)]
pub struct MeshPipelineKey {
    /// Fragments may be discarded (alpha masking).
    pub may_discard: bool,
    /// Depth is not clipped, as for the shadow maps of directional lights.
    pub unclipped_depth_ortho: bool,
    pub morph_targets: bool,
    pub lightmapped: bool,
    pub motion_vector_prepass: bool,
    pub primitive_topology: PrimitiveTopology,
    pub msaa_samples: u32,
}

/// A [`MeshPipelineKey`] together with what the material adds to it.
#[derive(Clone, Copy, Debug, PartialEq, Eq, Hash, Structural)]
pub struct MaterialPipelineKey {
    pub mesh_key: MeshPipelineKey,
    pub bind_group_data: u64,
}

/// Where a material takes a shader from.
#[derive(Clone, Copy, Debug, PartialEq, Eq, Hash)]
pub enum ShaderRef {
    /// The shader that the pipeline uses by default.
    Default,
    /// A shader that is already registered.
    Handle(ShaderHandle),
    /// A shader that the host loads from a path.
    Path(&'static str),
}

/// What the pipeline knows of the material system.
#[derive(Clone, Copy, Debug, PartialEq, Eq, Hash, Structural)]
pub struct MaterialPipeline {
    /// Whether materials are bound through binding arrays.
    pub bindless: bool,
}

/// Why a pipeline could not be specialized.
#[derive(Clone, Copy, Debug, PartialEq, Eq, Hash)]
pub enum SpecializedMeshPipelineError {
    MissingVertexAttribute(MissingVertexAttributeError),
}

/// A material, as far as the prepass is concerned.
///
/// Both methods have a default, so a material that has nothing to say about
/// the prepass implements the trait with an empty body.
pub trait Material: Sized {
    /// The vertex shader that the material wants the prepass to run. Unless
    /// the material says otherwise, it is the shader of the pipeline.
    fn prepass_vertex_shader() -> (shader: ShaderRef)
        default_ensures
            shader == ShaderRef::Default,
    {
        ShaderRef::Default
    }

    /// Adjusts the descriptor that the prepass pipeline built for `key` and
    /// `layout`, or refuses the combination. Unless the material says
    /// otherwise, the descriptor stays as it is.
    fn specialize(
        pipeline: &MaterialPipeline,
        descriptor: RenderPipelineDescriptor,
        layout: &MeshVertexBufferLayout,
        key: MaterialPipelineKey,
    ) -> (r: Result<RenderPipelineDescriptor, SpecializedMeshPipelineError>)
        default_ensures
            r == Ok::<RenderPipelineDescriptor, SpecializedMeshPipelineError>(descriptor),
    {
        Ok(descriptor)
    }
}

/// The material that leaves the prepass as it is.
#[derive(Clone, Copy, Debug, Default, PartialEq, Eq, Hash)]
pub struct PlainMaterial;

impl Material for PlainMaterial {

}

} // verus!

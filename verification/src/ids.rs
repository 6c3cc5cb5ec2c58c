//! Plain identifiers of host-side objects.
//!
//! The scheduler never looks inside an entity, a pipeline or a GPU resource;
//! it only carries their identifiers around and compares them.

use vstd::prelude::*;

verus! {

/// An entity of the render world, by its bits.
#[derive(Clone, Copy, Debug, PartialEq, Eq, Hash, Structural)]
pub struct Entity(pub u64);

/// The main-world entity that a render-world entity was extracted from.
#[derive(Clone, Copy, Debug, PartialEq, Eq, Hash, Structural)]
pub struct MainEntity(pub Entity);

/// A view as it is known across frames.
#[derive(Clone, Copy, Debug, PartialEq, Eq, Hash, Structural)]
pub struct RetainedViewEntity(pub u64);

/// Index of a registered draw function.
#[derive(Clone, Copy, Debug, PartialEq, Eq, Hash, Structural)]
pub struct DrawFunctionId(pub u32);

/// Handle of a pipeline held by the pipeline cache: its index in the cache.
#[derive(Clone, Copy, Debug, PartialEq, Eq, Hash, Structural)]
pub struct CachedRenderPipelineId(pub usize);

impl CachedRenderPipelineId {
    /// The index of the pipeline in the cache.
    pub fn id(&self) -> (index: usize)
        ensures
            index == self.0,
    {
        self.0
    }
}

/// A bind group layout created by the host.
#[derive(Clone, Copy, Debug, PartialEq, Eq, Hash, Structural)]
pub struct BindGroupLayout(pub u64);

/// A bind group created by the host.
#[derive(Clone, Copy, Debug, PartialEq, Eq, Hash, Structural)]
pub struct BindGroup(pub u64);

/// A texture view that can be attached to a render pass.
#[derive(Clone, Copy, Debug, PartialEq, Eq, Hash, Structural)]
pub struct TextureView(pub u64);

/// A shader asset: either one registered under a stable 128-bit identifier,
/// or the one that the host loads from a path.
#[derive(Clone, Copy, Debug, PartialEq, Eq, Hash)]
pub enum ShaderHandle {
    Weak(u128),
    Path(&'static str),
}

} // verus!

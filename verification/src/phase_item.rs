//! The items of the prepass phases: one per draw that the phase emits.

use crate::ids::{CachedRenderPipelineId, DrawFunctionId, Entity, MainEntity};
use core::ops::Range;
use vstd::prelude::*;

verus! {

/// Identifies the draws that one multi-draw call can cover: they share the
/// pipeline, the draw function, the material bind group and the buffers that
/// hold their vertices and indices.
#[derive(Clone, Copy, Debug, PartialEq, Eq, Hash, Structural)]
pub struct OpaqueNoLightmap3dBatchSetKey {
    /// The pipeline to draw with.
    pub pipeline: CachedRenderPipelineId,
    /// The function that draws.
    pub draw_function: DrawFunctionId,
    /// Index of the bind group of the material, where the material has one.
    pub material_bind_group_index: Option<u32>,
    /// The buffer that holds the vertices.
    pub vertex_slab: u32,
    /// The buffer that holds the indices, where the mesh is indexed.
    pub index_slab: Option<u32>,
}

/// Identifies the draws of one bin: the instances of one mesh.
#[derive(Clone, Copy, Debug, PartialEq, Eq, Hash, Structural)]
pub struct OpaqueNoLightmap3dBinKey {
    /// The mesh.
    pub asset_id: u64,
}

/// The index that some items carry beside their range of instances.
#[derive(Debug, PartialEq, Eq, Hash)]
pub enum PhaseItemExtraIndex {
    /// No extra index is present.
    Absent,
    /// A dynamic offset into the uniform buffer of instance data, on
    /// platforms without storage buffers.
    DynamicOffset(u32),
    /// The place of the item's draws in the buffer of indirect parameters.
    IndirectParametersIndex {
        /// The range of indirect parameters that the item covers.
        range: Range<u32>,
        /// The index of the batch set that the item stands for, where it
        /// stands for one.
        batch_set_index: Option<u32>,
    },
}

impl Clone for PhaseItemExtraIndex {
    fn clone(&self) -> (r: Self)
        ensures
            r == *self,
    {
        match self {
            PhaseItemExtraIndex::Absent => PhaseItemExtraIndex::Absent,
            PhaseItemExtraIndex::DynamicOffset(offset) => PhaseItemExtraIndex::DynamicOffset(
                *offset,
            ),
            PhaseItemExtraIndex::IndirectParametersIndex { range, batch_set_index } => {
                PhaseItemExtraIndex::IndirectParametersIndex {
                    range: Range { start: range.start, end: range.end },
                    batch_set_index: *batch_set_index,
                }
            },
        }
    }
}

/// What an item of a binned phase says: which draws, of which entity, over
/// which instances.
pub struct DrawItem {
    pub batch_set_key: OpaqueNoLightmap3dBatchSetKey,
    pub bin_key: OpaqueNoLightmap3dBinKey,
    pub representative_entity: (Entity, MainEntity),
    pub batch_range: Range<u32>,
    pub extra_index: PhaseItemExtraIndex,
}

/// What every item of a phase can be asked.
pub trait PhaseItem: Sized {
    /// What the item says.
    spec fn draw_item(&self) -> DrawItem;

    /// The entity that stands for the draws of the item.
    fn entity(&self) -> (entity: Entity)
        ensures
            entity == self.draw_item().representative_entity.0,
    ;

    /// The main-world entity that stands for the draws of the item.
    fn main_entity(&self) -> (entity: MainEntity)
        ensures
            entity == self.draw_item().representative_entity.1,
    ;

    /// The key of the batch set of the item.
    fn batch_set_key(&self) -> (key: OpaqueNoLightmap3dBatchSetKey)
        ensures
            key == self.draw_item().batch_set_key,
    ;

    /// The key of the bin of the item.
    fn bin_key(&self) -> (key: OpaqueNoLightmap3dBinKey)
        ensures
            key == self.draw_item().bin_key,
    ;

    /// The function that draws the item.
    fn draw_function(&self) -> (function: DrawFunctionId)
        ensures
            function == self.draw_item().batch_set_key.draw_function,
    ;

    /// The range of instances that the item covers.
    fn batch_range(&self) -> (range: &Range<u32>)
        ensures
            *range == self.draw_item().batch_range,
    ;

    /// The range of instances that the item covers, to change it.
    fn batch_range_mut(&mut self) -> (range: &mut Range<u32>)
        ensures
            *range == old(self).draw_item().batch_range,
            final(self).draw_item() == (DrawItem {
                batch_range: *final(range),
                ..old(self).draw_item()
            }),
    ;

    /// The extra index of the item.
    fn extra_index(&self) -> (index: PhaseItemExtraIndex)
        ensures
            index == self.draw_item().extra_index,
    ;

    /// The range of instances and the extra index, to change them.
    fn batch_range_and_extra_index_mut(&mut self) -> (r: (
        &mut Range<u32>,
        &mut PhaseItemExtraIndex,
    ))
        ensures
            *r.0 == old(self).draw_item().batch_range,
            *r.1 == old(self).draw_item().extra_index,
            final(self).draw_item() == (DrawItem {
                batch_range: *final(r.0),
                extra_index: *final(r.1),
                ..old(self).draw_item()
            }),
    ;
}

/// An item that a binned phase can make from the keys of a bin.
pub trait BinnedPhaseItem: PhaseItem {
    /// The item that says exactly what it is given.
    fn new(
        batch_set_key: OpaqueNoLightmap3dBatchSetKey,
        bin_key: OpaqueNoLightmap3dBinKey,
        representative_entity: (Entity, MainEntity),
        batch_range: Range<u32>,
        extra_index: PhaseItemExtraIndex,
    ) -> (item: Self)
        ensures
            item.draw_item() == (DrawItem {
                batch_set_key,
                bin_key,
                representative_entity,
                batch_range,
                extra_index,
            }),
    ;
}

/// An item that is drawn with a pipeline of the pipeline cache.
pub trait CachedRenderPipelinePhaseItem: PhaseItem {
    /// The pipeline that the item is drawn with.
    fn cached_pipeline(&self) -> (pipeline: CachedRenderPipelineId)
        ensures
            pipeline == self.draw_item().batch_set_key.pipeline,
    ;
}

/// An item of the phase of opaque meshes.
#[derive(Debug, PartialEq, Eq, Hash)]
pub struct Opaque3dVisbuffer {
    /// Determines which objects can be placed into a *batch set*.
    ///
    /// Objects in a single batch set can potentially be multi-drawn together,
    /// if it's enabled and the current platform supports it.
    pub batch_set_key: OpaqueNoLightmap3dBatchSetKey,
    /// Information that separates items into bins.
    pub bin_key: OpaqueNoLightmap3dBinKey,
    pub representative_entity: (Entity, MainEntity),
    pub batch_range: Range<u32>,
    pub extra_index: PhaseItemExtraIndex,
}

impl PhaseItem for Opaque3dVisbuffer {
    open spec fn draw_item(&self) -> DrawItem {
        DrawItem {
            batch_set_key: self.batch_set_key,
            bin_key: self.bin_key,
            representative_entity: self.representative_entity,
            batch_range: self.batch_range,
            extra_index: self.extra_index,
        }
    }

    #[inline]
    fn entity(&self) -> (entity: Entity) {
        self.representative_entity.0
    }

    fn main_entity(&self) -> (entity: MainEntity) {
        self.representative_entity.1
    }

    #[inline]
    fn batch_set_key(&self) -> (key: OpaqueNoLightmap3dBatchSetKey) {
        self.batch_set_key
    }

    #[inline]
    fn bin_key(&self) -> (key: OpaqueNoLightmap3dBinKey) {
        self.bin_key
    }

    #[inline]
    fn draw_function(&self) -> (function: DrawFunctionId) {
        self.batch_set_key.draw_function
    }

    #[inline]
    fn batch_range(&self) -> (range: &Range<u32>) {
        &self.batch_range
    }

    #[inline]
    fn batch_range_mut(&mut self) -> (range: &mut Range<u32>) {
        &mut self.batch_range
    }

    #[inline]
    fn extra_index(&self) -> (index: PhaseItemExtraIndex) {
        self.extra_index.clone()
    }

    #[inline]
    fn batch_range_and_extra_index_mut(&mut self) -> (r: (
        &mut Range<u32>,
        &mut PhaseItemExtraIndex,
    )) {
        (&mut self.batch_range, &mut self.extra_index)
    }
}

impl BinnedPhaseItem for Opaque3dVisbuffer {
    #[inline]
    fn new(
        batch_set_key: OpaqueNoLightmap3dBatchSetKey,
        bin_key: OpaqueNoLightmap3dBinKey,
        representative_entity: (Entity, MainEntity),
        batch_range: Range<u32>,
        extra_index: PhaseItemExtraIndex,
    ) -> (item: Self) {
        Self { batch_set_key, bin_key, representative_entity, batch_range, extra_index }
    }
}

impl CachedRenderPipelinePhaseItem for Opaque3dVisbuffer {
    #[inline]
    fn cached_pipeline(&self) -> (pipeline: CachedRenderPipelineId) {
        self.batch_set_key.pipeline
    }
}

/// An item of the phase of alpha-masked meshes.
#[derive(Debug, PartialEq, Eq, Hash)]
pub struct AlphaMask3dVisbuffer {
    /// Determines which objects can be placed into a *batch set*.
    ///
    /// Objects in a single batch set can potentially be multi-drawn together,
    /// if it's enabled and the current platform supports it.
    pub batch_set_key: OpaqueNoLightmap3dBatchSetKey,
    /// Information that separates items into bins.
    pub bin_key: OpaqueNoLightmap3dBinKey,
    pub representative_entity: (Entity, MainEntity),
    pub batch_range: Range<u32>,
    pub extra_index: PhaseItemExtraIndex,
}

impl PhaseItem for AlphaMask3dVisbuffer {
    open spec fn draw_item(&self) -> DrawItem {
        DrawItem {
            batch_set_key: self.batch_set_key,
            bin_key: self.bin_key,
            representative_entity: self.representative_entity,
            batch_range: self.batch_range,
            extra_index: self.extra_index,
        }
    }

    #[inline]
    fn entity(&self) -> (entity: Entity) {
        self.representative_entity.0
    }

    fn main_entity(&self) -> (entity: MainEntity) {
        self.representative_entity.1
    }

    #[inline]
    fn batch_set_key(&self) -> (key: OpaqueNoLightmap3dBatchSetKey) {
        self.batch_set_key
    }

    #[inline]
    fn bin_key(&self) -> (key: OpaqueNoLightmap3dBinKey) {
        self.bin_key
    }

    #[inline]
    fn draw_function(&self) -> (function: DrawFunctionId) {
        self.batch_set_key.draw_function
    }

    #[inline]
    fn batch_range(&self) -> (range: &Range<u32>) {
        &self.batch_range
    }

    #[inline]
    fn batch_range_mut(&mut self) -> (range: &mut Range<u32>) {
        &mut self.batch_range
    }

    #[inline]
    fn extra_index(&self) -> (index: PhaseItemExtraIndex) {
        self.extra_index.clone()
    }

    #[inline]
    fn batch_range_and_extra_index_mut(&mut self) -> (r: (
        &mut Range<u32>,
        &mut PhaseItemExtraIndex,
    )) {
        (&mut self.batch_range, &mut self.extra_index)
    }
}

impl BinnedPhaseItem for AlphaMask3dVisbuffer {
    #[inline]
    fn new(
        batch_set_key: OpaqueNoLightmap3dBatchSetKey,
        bin_key: OpaqueNoLightmap3dBinKey,
        representative_entity: (Entity, MainEntity),
        batch_range: Range<u32>,
        extra_index: PhaseItemExtraIndex,
    ) -> (item: Self) {
        Self { batch_set_key, bin_key, representative_entity, batch_range, extra_index }
    }
}

impl CachedRenderPipelinePhaseItem for AlphaMask3dVisbuffer {
    #[inline]
    fn cached_pipeline(&self) -> (pipeline: CachedRenderPipelineId) {
        self.batch_set_key.pipeline
    }
}

} // verus!

//! Queuing: a mesh that extraction found visible is specialized against the
//! pipeline cache and, where that succeeds, binned in the phase of its view.

use crate::cache::PipelineCache;
use crate::ids::{CachedRenderPipelineId, DrawFunctionId, Entity, MainEntity};
use crate::layout::MeshVertexBufferLayout;
use crate::material::{Material, MaterialPipelineKey, SpecializedMeshPipelineError};
use crate::phase::{BinnedRenderPhase, BinnedRenderPhaseType, BinnedRenderPhaseView};
use crate::phase_item::{
    BinnedPhaseItem,
    OpaqueNoLightmap3dBatchSetKey,
    OpaqueNoLightmap3dBinKey,
};
use crate::pipeline::VisbufferPrepassPipeline;
use vstd::prelude::*;

verus! {

/// A mesh that is visible in a view, as extraction hands it in.
#[derive(Debug)]
pub struct ExtractedMesh {
    pub entity: (Entity, MainEntity),
    /// The mesh.
    pub asset_id: u64,
    pub layout: MeshVertexBufferLayout,
    /// What selects the pipeline variant of the mesh.
    pub key: MaterialPipelineKey,
    pub draw_function: DrawFunctionId,
    pub material_bind_group_index: Option<u32>,
    pub vertex_slab: u32,
    pub index_slab: Option<u32>,
    pub phase_type: BinnedRenderPhaseType,
}

/// A mesh that was dropped from a frame because its pipeline could not be
/// specialized.
#[derive(Clone, Copy, Debug, PartialEq, Eq, Hash)]
pub struct SpecializationFailure {
    pub entity: MainEntity,
    /// The key that could not be specialized.
    pub key: MaterialPipelineKey,
    pub error: SpecializedMeshPipelineError,
}

impl ExtractedMesh {
    /// The batch set of the mesh when it is drawn with `pipeline`.
    pub open spec fn spec_batch_set_key(&self, pipeline: CachedRenderPipelineId) -> OpaqueNoLightmap3dBatchSetKey {
        OpaqueNoLightmap3dBatchSetKey {
            pipeline,
            draw_function: self.draw_function,
            material_bind_group_index: self.material_bind_group_index,
            vertex_slab: self.vertex_slab,
            index_slab: self.index_slab,
        }
    }

    /// The batch set of the mesh when it is drawn with `pipeline`.
    #[verifier::when_used_as_spec(spec_batch_set_key)]
    pub fn batch_set_key(&self, pipeline: CachedRenderPipelineId) -> (key:
        OpaqueNoLightmap3dBatchSetKey)
        ensures
            key == self.spec_batch_set_key(pipeline),
    {
        OpaqueNoLightmap3dBatchSetKey {
            pipeline,
            draw_function: self.draw_function,
            material_bind_group_index: self.material_bind_group_index,
            vertex_slab: self.vertex_slab,
            index_slab: self.index_slab,
        }
    }

    /// The bin of the mesh.
    pub open spec fn spec_bin_key(&self) -> OpaqueNoLightmap3dBinKey {
        OpaqueNoLightmap3dBinKey { asset_id: self.asset_id }
    }

    /// The bin of the mesh.
    #[verifier::when_used_as_spec(spec_bin_key)]
    pub fn bin_key(&self) -> (key: OpaqueNoLightmap3dBinKey)
        ensures
            key == self.spec_bin_key(),
    {
        OpaqueNoLightmap3dBinKey { asset_id: self.asset_id }
    }

    /// The phase after the mesh was queued with the answer `pipeline` of the
    /// pipeline cache: with a pipeline, the mesh is binned, unless the phase
    /// is full; without one, the phase stays as it is.
    pub open spec fn queued(
        &self,
        phase: BinnedRenderPhaseView,
        pipeline: Result<CachedRenderPipelineId, SpecializedMeshPipelineError>,
    ) -> BinnedRenderPhaseView {
        match pipeline {
            Ok(id) => if phase.entities() < u32::MAX {
                phase.add(self.batch_set_key(id), self.bin_key(), self.entity, self.phase_type)
            } else {
                phase
            },
            Err(_) => phase,
        }
    }

    /// What queuing the mesh with the answer `pipeline` of the pipeline
    /// cache comes to: whether the mesh was binned, or why it was dropped.
    pub open spec fn queuing(
        &self,
        phase: BinnedRenderPhaseView,
        pipeline: Result<CachedRenderPipelineId, SpecializedMeshPipelineError>,
    ) -> Result<bool, SpecializationFailure> {
        match pipeline {
            Ok(_) => Ok(phase.entities() < u32::MAX),
            Err(error) => Err(SpecializationFailure { entity: self.entity.1, key: self.key, error }),
        }
    }
}

impl<I: BinnedPhaseItem> BinnedRenderPhase<I> {
    /// Bins `mesh` where the pipeline cache answered with a pipeline, and
    /// drops it where the cache answered with an error.
    ///
    /// A mesh whose specialization failed leaves no trace in the phase. The
    /// failure is handed back for the caller to report.
    pub fn add_specialized(
        &mut self,
        mesh: &ExtractedMesh,
        pipeline: Result<CachedRenderPipelineId, SpecializedMeshPipelineError>,
    ) -> (r: Result<bool, SpecializationFailure>)
        requires
            old(self).wf(),
        ensures
            final(self).wf(),
            final(self)@ == mesh.queued(old(self)@, pipeline),
            r == mesh.queuing(old(self)@, pipeline),
    {
        match pipeline {
            Ok(id) => Ok(self.add(mesh.batch_set_key(id), mesh.bin_key(), mesh.entity, mesh.phase_type)),
            Err(error) => Err(SpecializationFailure { entity: mesh.entity.1, key: mesh.key, error }),
        }
    }

    /// Queues `mesh`: its pipeline variant is looked up in the cache, or
    /// specialized and compiled, and the mesh is binned under it.
    ///
    /// Where the specialization fails, the mesh is dropped from this frame,
    /// and the failure is handed back for the caller to report.
    pub fn queue<M: Material>(
        &mut self,
        pipeline_cache: &mut PipelineCache,
        pipeline: &VisbufferPrepassPipeline<M>,
        mesh: &ExtractedMesh,
    ) -> (r: Result<bool, SpecializationFailure>)
        requires
            old(self).wf(),
            old(pipeline_cache).wf(),
        ensures
            final(self).wf(),
            final(pipeline_cache).wf(),
            exists|answer: Result<CachedRenderPipelineId, SpecializedMeshPipelineError>|
                {
                    &&& #[trigger] old(pipeline_cache)@.specializes(
                        final(pipeline_cache)@,
                        pipeline,
                        mesh.key,
                        &mesh.layout,
                        answer,
                    )
                    &&& final(self)@ == mesh.queued(old(self)@, answer)
                    &&& r == mesh.queuing(old(self)@, answer)
                },
    {
        let answer = pipeline_cache.specialize(pipeline, mesh.key, &mesh.layout);
        self.add_specialized(mesh, answer)
    }
}

} // verus!

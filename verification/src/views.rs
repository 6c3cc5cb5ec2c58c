//! The phases of the views: every view that was prepared for a frame has a
//! phase of its own.

use crate::cache::PipelineCache;
use crate::ids::{CachedRenderPipelineId, Entity, MainEntity, RetainedViewEntity};
use crate::material::{Material, SpecializedMeshPipelineError};
use crate::phase::{BinnedRenderPhase, BinnedRenderPhaseType, BinnedRenderPhaseView};
use crate::phase_item::{
    BinnedPhaseItem,
    OpaqueNoLightmap3dBatchSetKey,
    OpaqueNoLightmap3dBinKey,
};
use crate::pipeline::VisbufferPrepassPipeline;
use crate::queue::{ExtractedMesh, SpecializationFailure};
use vstd::prelude::*;

verus! {

/// The phase of one view.
#[derive(Debug)]
pub struct ViewPhase<I: BinnedPhaseItem> {
    pub view: RetainedViewEntity,
    pub phase: BinnedRenderPhase<I>,
}

/// The phases of one kind of item, one for each view that was prepared.
#[derive(Debug)]
pub struct ViewBinnedRenderPhases<I: BinnedPhaseItem> {
    phases: Vec<ViewPhase<I>>,
}

impl<I: BinnedPhaseItem> ViewBinnedRenderPhases<I> {
    /// Whether the phase at `index` is that of `view`.
    spec fn is_at(&self, view: RetainedViewEntity, index: int) -> bool {
        0 <= index < self.phases.len() && self.phases[index].view == view
    }

    /// The phase of `view`, where the view was prepared.
    pub closed spec fn phase_of(&self, view: RetainedViewEntity) -> Option<BinnedRenderPhaseView> {
        if exists|index: int| self.is_at(view, index) {
            Some(self.phases[choose|index: int| self.is_at(view, index)].phase@)
        } else {
            None
        }
    }

    /// What every value that this module hands out satisfies: no view has
    /// two phases, and every phase is well formed.
    pub closed spec fn wf(&self) -> bool {
        &&& forall|i: int, j: int|
            0 <= i < j < self.phases.len() ==> (#[trigger] self.phases[i]).view != (
            #[trigger] self.phases[j]).view
        &&& forall|i: int| 0 <= i < self.phases.len() ==> (#[trigger] self.phases[i]).phase.wf()
    }

    /// The phase that is at `index` is the phase of its view.
    proof fn lemma_phase_at(&self, view: RetainedViewEntity, index: int)
        requires
            self.wf(),
            self.is_at(view, index),
        ensures
            self.phase_of(view) == Some(self.phases[index].phase@),
    {
        // Two phases of one view are one phase.
        let chosen = choose|index: int| self.is_at(view, index);
        assert(chosen == index);
    }

    /// No phases.
    pub fn new() -> (phases: Self)
        ensures
            phases.wf(),
            forall|view: RetainedViewEntity| phases.phase_of(view) is None,
    {
        ViewBinnedRenderPhases { phases: Vec::new() }
    }

    /// Position of the phase of `view`.
    fn position(&self, view: &RetainedViewEntity) -> (r: Option<usize>)
        ensures
            match r {
                Some(index) => self.is_at(*view, index as int),
                None => forall|index: int| !self.is_at(*view, index),
            },
    {
        let n = self.phases.len();
        let mut i: usize = 0;
        while i < n
            invariant
                n == self.phases.len(),
                i <= n,
                forall|j: int| 0 <= j < i ==> !self.is_at(*view, j),
            decreases n - i,
        {
            if self.phases[i].view == *view {
                return Some(i);
            }
            i += 1;
        }
        None
    }

    /// The phase of `view`, where the view was prepared.
    pub fn get(&self, view: &RetainedViewEntity) -> (r: Option<&BinnedRenderPhase<I>>)
        requires
            self.wf(),
        ensures
            match r {
                Some(phase) => phase.wf() && self.phase_of(*view) == Some(phase@),
                None => self.phase_of(*view) is None,
            },
    {
        match self.position(view) {
            Some(index) => {
                proof {
                    self.lemma_phase_at(*view, index as int);
                }
                Some(&self.phases[index].phase)
            },
            None => None,
        }
    }

    /// Makes the phase of `view` ready for a frame: the phase of a view that
    /// was prepared before loses its bins, and a new view gets a phase
    /// without bins.
    pub fn prepare_for_new_frame(&mut self, view: RetainedViewEntity, multidraw: bool)
        requires
            old(self).wf(),
        ensures
            final(self).wf(),
            final(self).phase_of(view) == Some(
                match old(self).phase_of(view) {
                    Some(phase) => phase.cleared(),
                    None => BinnedRenderPhaseView {
                        multidrawable_meshes: Seq::empty(),
                        batchable_meshes: Seq::empty(),
                        unbatchable_meshes: Seq::empty(),
                        multidraw,
                    },
                },
            ),
            forall|other: RetainedViewEntity|
                other != view ==> final(self).phase_of(other) == old(self).phase_of(other),
    {
        let ghost before = *self;
        match self.position(&view) {
            Some(index) => {
                proof {
                    self.lemma_phase_at(view, index as int);
                }
                let entry = &mut self.phases[index];
                entry.phase.clear();
                proof {
                    assert forall|i: int| 0 <= i < self.phases.len() implies (
                    #[trigger] self.phases[i]).view == before.phases[i].view by {}
                    assert(self.wf()) by {
                        assert forall|i: int| 0 <= i < self.phases.len() implies (
                        #[trigger] self.phases[i]).phase.wf() by {}
                    }
                    self.lemma_phase_at(view, index as int);
                    assert forall|other: RetainedViewEntity| other != view implies self.phase_of(
                        other,
                    ) == before.phase_of(other) by {
                        Self::lemma_same_elsewhere(before, *self, other, index as int);
                    }
                }
            },
            None => {
                let phase = BinnedRenderPhase::new(multidraw);
                self.phases.push(ViewPhase { view, phase });
                proof {
                    let index = before.phases.len() as int;
                    assert forall|i: int| 0 <= i < index implies (#[trigger] self.phases[i])
                        == before.phases[i] by {}
                    assert(self.wf()) by {
                        assert forall|i: int, j: int|
                            0 <= i < j < self.phases.len() implies (#[trigger] self.phases[i]).view
                            != (#[trigger] self.phases[j]).view by {
                            if j == index {
                                assert(!before.is_at(view, i));
                            }
                        }
                    }
                    self.lemma_phase_at(view, index);
                    assert forall|other: RetainedViewEntity| other != view implies self.phase_of(
                        other,
                    ) == before.phase_of(other) by {
                        Self::lemma_same_before(before, *self, other);
                    }
                }
            },
        }
    }

    /// Where two collections differ in the phase at `index` only, and not
    /// in its view, every other view has the same phase in both.
    proof fn lemma_same_elsewhere(a: Self, b: Self, other: RetainedViewEntity, index: int)
        requires
            a.wf(),
            b.wf(),
            a.phases.len() == b.phases.len(),
            0 <= index < a.phases.len(),
            a.phases[index].view != other,
            forall|i: int| 0 <= i < a.phases.len() ==> (#[trigger] a.phases[i]).view == b.phases[i].view,
            forall|i: int| 0 <= i < a.phases.len() && i != index ==> (#[trigger] a.phases[i]) == b.phases[i],
        ensures
            a.phase_of(other) == b.phase_of(other),
    {
        if exists|i: int| a.is_at(other, i) {
            let i = choose|i: int| a.is_at(other, i);
            a.lemma_phase_at(other, i);
            b.lemma_phase_at(other, i);
        } else {
            assert forall|i: int| !b.is_at(other, i) by {
                if b.is_at(other, i) {
                    assert(a.is_at(other, i));
                }
            }
        }
    }

    /// Where a collection is another one with one more phase at its end,
    /// every view but that of the new phase has the same phase in both.
    proof fn lemma_same_before(a: Self, b: Self, other: RetainedViewEntity)
        requires
            a.wf(),
            b.wf(),
            b.phases.len() == a.phases.len() + 1,
            b.phases[a.phases.len() as int].view != other,
            forall|i: int| 0 <= i < a.phases.len() ==> (#[trigger] b.phases[i]) == a.phases[i],
        ensures
            a.phase_of(other) == b.phase_of(other),
    {
        if exists|i: int| a.is_at(other, i) {
            let i = choose|i: int| a.is_at(other, i);
            a.lemma_phase_at(other, i);
            b.lemma_phase_at(other, i);
        } else {
            assert forall|i: int| !b.is_at(other, i) by {
                if b.is_at(other, i) {
                    assert(a.is_at(other, i));
                }
            }
        }
    }

    /// Takes the bins out of the phase of `view`. The phases of the other
    /// views stay as they are.
    pub fn clear(&mut self, view: RetainedViewEntity)
        requires
            old(self).wf(),
        ensures
            final(self).wf(),
            final(self).phase_of(view) == match old(self).phase_of(view) {
                Some(phase) => Some(phase.cleared()),
                None => None,
            },
            forall|other: RetainedViewEntity|
                other != view ==> final(self).phase_of(other) == old(self).phase_of(other),
    {
        let ghost before = *self;
        match self.position(&view) {
            Some(index) => {
                proof {
                    self.lemma_phase_at(view, index as int);
                }
                let entry = &mut self.phases[index];
                entry.phase.clear();
                proof {
                    assert forall|i: int| 0 <= i < self.phases.len() implies (
                    #[trigger] self.phases[i]).view == before.phases[i].view by {}
                    assert(self.wf()) by {
                        assert forall|i: int| 0 <= i < self.phases.len() implies (
                        #[trigger] self.phases[i]).phase.wf() by {}
                    }
                    self.lemma_phase_at(view, index as int);
                    assert forall|other: RetainedViewEntity| other != view implies self.phase_of(
                        other,
                    ) == before.phase_of(other) by {
                        Self::lemma_same_elsewhere(before, *self, other, index as int);
                    }
                }
            },
            None => {},
        }
    }

    /// Takes out of the phase of `view` the entities that were extracted
    /// from `entity`, and tells how many they were.
    pub fn remove(&mut self, view: RetainedViewEntity, entity: MainEntity) -> (removed: u32)
        requires
            old(self).wf(),
        ensures
            final(self).wf(),
            final(self).phase_of(view) == match old(self).phase_of(view) {
                Some(phase) => Some(phase.without(entity)),
                None => None,
            },
            removed == match old(self).phase_of(view) {
                Some(phase) => phase.entities() - phase.without(entity).entities(),
                None => 0,
            },
            forall|other: RetainedViewEntity|
                other != view ==> final(self).phase_of(other) == old(self).phase_of(other),
    {
        let ghost before = *self;
        match self.position(&view) {
            Some(index) => {
                proof {
                    self.lemma_phase_at(view, index as int);
                }
                let entry = &mut self.phases[index];
                let removed = entry.phase.remove(entity);
                proof {
                    assert forall|i: int| 0 <= i < self.phases.len() implies (
                    #[trigger] self.phases[i]).view == before.phases[i].view by {}
                    assert(self.wf()) by {
                        assert forall|i: int| 0 <= i < self.phases.len() implies (
                        #[trigger] self.phases[i]).phase.wf() by {}
                    }
                    self.lemma_phase_at(view, index as int);
                    assert forall|other: RetainedViewEntity| other != view implies self.phase_of(
                        other,
                    ) == before.phase_of(other) by {
                        Self::lemma_same_elsewhere(before, *self, other, index as int);
                    }
                }
                removed
            },
            None => 0,
        }
    }

    /// Bins a new entity in the phase of `view`.
    ///
    /// The answer is `false`, and nothing changes, where the view was not
    /// prepared or its phase takes no more entities.
    pub fn add(
        &mut self,
        view: RetainedViewEntity,
        batch_set_key: OpaqueNoLightmap3dBatchSetKey,
        bin_key: OpaqueNoLightmap3dBinKey,
        entity: (Entity, MainEntity),
        phase_type: BinnedRenderPhaseType,
    ) -> (added: bool)
        requires
            old(self).wf(),
        ensures
            final(self).wf(),
            added == (old(self).phase_of(view) matches Some(phase) && phase.entities() < u32::MAX),
            final(self).phase_of(view) == match old(self).phase_of(view) {
                Some(phase) => Some(
                    if added {
                        phase.add(batch_set_key, bin_key, entity, phase_type)
                    } else {
                        phase
                    },
                ),
                None => None,
            },
            forall|other: RetainedViewEntity|
                other != view ==> final(self).phase_of(other) == old(self).phase_of(other),
    {
        let ghost before = *self;
        match self.position(&view) {
            Some(index) => {
                proof {
                    self.lemma_phase_at(view, index as int);
                }
                let entry = &mut self.phases[index];
                let added = entry.phase.add(batch_set_key, bin_key, entity, phase_type);
                proof {
                    assert forall|i: int| 0 <= i < self.phases.len() implies (
                    #[trigger] self.phases[i]).view == before.phases[i].view by {}
                    assert(self.wf()) by {
                        assert forall|i: int| 0 <= i < self.phases.len() implies (
                        #[trigger] self.phases[i]).phase.wf() by {}
                    }
                    self.lemma_phase_at(view, index as int);
                    assert forall|other: RetainedViewEntity| other != view implies self.phase_of(
                        other,
                    ) == before.phase_of(other) by {
                        Self::lemma_same_elsewhere(before, *self, other, index as int);
                    }
                }
                added
            },
            None => false,
        }
    }

    /// Queues `mesh` in the phase of `view`: its pipeline variant is looked
    /// up in the cache, or specialized and compiled, and the mesh is binned
    /// under it.
    ///
    /// Where the specialization fails, the mesh is dropped from this frame,
    /// and the failure is handed back for the caller to report. Where the
    /// view was not prepared, nothing is specialized and nothing is binned,
    /// and the answer is `Ok(false)`.
    pub fn queue<M: Material>(
        &mut self,
        view: RetainedViewEntity,
        pipeline_cache: &mut PipelineCache,
        pipeline: &VisbufferPrepassPipeline<M>,
        mesh: &ExtractedMesh,
    ) -> (r: Result<bool, SpecializationFailure>)
        requires
            old(self).wf(),
            old(pipeline_cache).wf(),
        ensures
            final(self).wf(),
            final(pipeline_cache).wf(),
            match old(self).phase_of(view) {
                Some(phase) => exists|
                    answer: Result<CachedRenderPipelineId, SpecializedMeshPipelineError>,
                |
                    {
                        &&& #[trigger] old(pipeline_cache)@.specializes(
                            final(pipeline_cache)@,
                            pipeline,
                            mesh.key,
                            &mesh.layout,
                            answer,
                        )
                        &&& final(self).phase_of(view) == Some(mesh.queued(phase, answer))
                        &&& r == mesh.queuing(phase, answer)
                    },
                None => {
                    &&& r == Ok::<bool, SpecializationFailure>(false)
                    &&& final(pipeline_cache)@ == old(pipeline_cache)@
                    &&& final(self).phase_of(view) is None
                },
            },
            forall|other: RetainedViewEntity|
                other != view ==> final(self).phase_of(other) == old(self).phase_of(other),
    {
        let ghost before = *self;
        match self.position(&view) {
            Some(index) => {
                proof {
                    self.lemma_phase_at(view, index as int);
                }
                let entry = &mut self.phases[index];
                let r = entry.phase.queue(pipeline_cache, pipeline, mesh);
                proof {
                    assert forall|i: int| 0 <= i < self.phases.len() implies (
                    #[trigger] self.phases[i]).view == before.phases[i].view by {}
                    assert(self.wf()) by {
                        assert forall|i: int| 0 <= i < self.phases.len() implies (
                        #[trigger] self.phases[i]).phase.wf() by {}
                    }
                    self.lemma_phase_at(view, index as int);
                    assert forall|other: RetainedViewEntity| other != view implies self.phase_of(
                        other,
                    ) == before.phase_of(other) by {
                        Self::lemma_same_elsewhere(before, *self, other, index as int);
                    }
                }
                r
            },
            None => Ok(false),
        }
    }
}

} // verus!

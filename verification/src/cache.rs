//! The pipeline cache: every pipeline variant is compiled once and found
//! again under the key and the mesh layout that it was specialized for.

use crate::descriptor::{RenderPipelineDescriptor, RenderPipelineDescriptorView};
use crate::ids::CachedRenderPipelineId;
use crate::layout::{MeshVertexBufferLayout, MeshVertexBufferLayoutView};
use crate::material::{Material, MaterialPipelineKey, SpecializedMeshPipelineError};
use crate::pipeline::VisbufferPrepassPipeline;
use vstd::prelude::*;

verus! {

/// Remembers which pipeline was compiled for a key and a mesh layout.
#[derive(Debug)]
pub struct CachedSpecialization {
    pub key: MaterialPipelineKey,
    pub layout: MeshVertexBufferLayout,
    pub id: CachedRenderPipelineId,
}

/// Mathematical content of a [`CachedSpecialization`].
pub struct CachedSpecializationView {
    pub key: MaterialPipelineKey,
    pub layout: MeshVertexBufferLayoutView,
    pub id: CachedRenderPipelineId,
}

impl View for CachedSpecialization {
    type V = CachedSpecializationView;

    open spec fn view(&self) -> CachedSpecializationView {
        CachedSpecializationView { key: self.key, layout: self.layout@, id: self.id }
    }
}

impl DeepView for CachedSpecialization {
    type V = CachedSpecializationView;

    open spec fn deep_view(&self) -> CachedSpecializationView {
        self@
    }
}

impl DeepView for RenderPipelineDescriptor {
    type V = RenderPipelineDescriptorView;

    open spec fn deep_view(&self) -> RenderPipelineDescriptorView {
        self@
    }
}

/// The pipelines that were handed to the host for compilation, and the
/// specializations that are remembered.
///
/// A pipeline keeps its handle for as long as the cache lives; the handle is
/// its position among the pipelines. Invalidation forgets specializations
/// and no pipeline.
#[derive(Debug)]
pub struct PipelineCache {
    pipelines: Vec<RenderPipelineDescriptor>,
    specializations: Vec<CachedSpecialization>,
}

/// Mathematical content of a [`PipelineCache`].
pub struct PipelineCacheView {
    /// The descriptors that were compiled, at their handles.
    pub pipelines: Seq<RenderPipelineDescriptorView>,
    pub specializations: Seq<CachedSpecializationView>,
}

impl PipelineCacheView {
    /// Every remembered handle is that of a pipeline, and no key and layout
    /// are remembered twice.
    pub open spec fn wf(self) -> bool {
        &&& forall|i: int|
            0 <= i < self.specializations.len() ==> (#[trigger] self.specializations[i]).id.0
                < self.pipelines.len()
        &&& forall|i: int, j: int|
            0 <= i < j < self.specializations.len() ==> !((#[trigger] self.specializations[i]).key
                == (#[trigger] self.specializations[j]).key && self.specializations[i].layout
                == self.specializations[j].layout)
    }

    /// Whether the specialization at `index` is the one for `key` and `layout`.
    pub open spec fn is_at(
        self,
        key: MaterialPipelineKey,
        layout: MeshVertexBufferLayoutView,
        index: int,
    ) -> bool {
        &&& 0 <= index < self.specializations.len()
        &&& self.specializations[index].key == key
        &&& self.specializations[index].layout == layout
    }

    /// The handle remembered for `key` and `layout`.
    pub open spec fn lookup(self, key: MaterialPipelineKey, layout: MeshVertexBufferLayoutView) -> Option<
        CachedRenderPipelineId,
    > {
        if exists|index: int| self.is_at(key, layout, index) {
            Some(self.specializations[choose|index: int| self.is_at(key, layout, index)].id)
        } else {
            None
        }
    }

    /// Whether `id` is the handle of a compiled pipeline.
    pub open spec fn contains(self, id: CachedRenderPipelineId) -> bool {
        id.0 < self.pipelines.len()
    }

    /// Number of pipelines that were compiled.
    pub open spec fn compiled(self) -> nat {
        self.pipelines.len()
    }

    /// The cache after a specialization of `key` and `layout` came out as
    /// `outcome`.
    ///
    /// What is remembered stays. A new descriptor is compiled under the next
    /// handle and remembered; a failure leaves no trace.
    pub open spec fn record(
        self,
        key: MaterialPipelineKey,
        layout: MeshVertexBufferLayoutView,
        outcome: Result<RenderPipelineDescriptorView, SpecializedMeshPipelineError>,
    ) -> PipelineCacheView {
        if self.lookup(key, layout) is Some {
            self
        } else {
            match outcome {
                Ok(descriptor) => PipelineCacheView {
                    pipelines: self.pipelines.push(descriptor),
                    specializations: self.specializations.push(
                        CachedSpecializationView {
                            key,
                            layout,
                            id: CachedRenderPipelineId(self.pipelines.len() as usize),
                        },
                    ),
                },
                Err(_) => self,
            }
        }
    }

    /// The answer of the cache to a specialization of `key` and `layout`
    /// that came out as `outcome`.
    pub open spec fn answer(
        self,
        key: MaterialPipelineKey,
        layout: MeshVertexBufferLayoutView,
        outcome: Result<RenderPipelineDescriptorView, SpecializedMeshPipelineError>,
    ) -> Result<CachedRenderPipelineId, SpecializedMeshPipelineError> {
        match self.lookup(key, layout) {
            Some(id) => Ok(id),
            None => match outcome {
                Ok(_) => Ok(CachedRenderPipelineId(self.pipelines.len() as usize)),
                Err(e) => Err(e),
            },
        }
    }

    /// Whether a specialization of `key` and `layout` by `pipeline` can take
    /// the cache to `after` and be answered with `answer`.
    ///
    /// A variant that is remembered is answered from memory: the cache stays
    /// as it is. Otherwise the cache records an outcome that the pipeline
    /// can come to.
    pub open spec fn specializes<M: Material>(
        self,
        after: PipelineCacheView,
        pipeline: &VisbufferPrepassPipeline<M>,
        key: MaterialPipelineKey,
        layout: &MeshVertexBufferLayout,
        answer: Result<CachedRenderPipelineId, SpecializedMeshPipelineError>,
    ) -> bool {
        match self.lookup(key, layout@) {
            Some(id) => answer == Ok::<CachedRenderPipelineId, SpecializedMeshPipelineError>(id)
                && after == self,
            None => exists|outcome: Result<RenderPipelineDescriptor, SpecializedMeshPipelineError>|
                {
                    &&& #[trigger] pipeline.specializes_to(key, layout, outcome)
                    &&& after == self.record(key, layout@, view_of_outcome(outcome))
                    &&& answer == self.answer(key, layout@, view_of_outcome(outcome))
                },
        }
    }

    /// A specialization that is at `index` is the one that `lookup` finds.
    pub proof fn lemma_lookup_at(
        self,
        key: MaterialPipelineKey,
        layout: MeshVertexBufferLayoutView,
        index: int,
    )
        requires
            self.wf(),
            self.is_at(key, layout, index),
        ensures
            self.lookup(key, layout) == Some(self.specializations[index].id),
    {
        // Two places with one key and one layout are one place.
        let chosen = choose|index: int| self.is_at(key, layout, index);
        assert(chosen == index);
    }

    /// Recording an outcome keeps the cache well formed.
    pub proof fn lemma_record_wf(
        self,
        key: MaterialPipelineKey,
        layout: MeshVertexBufferLayoutView,
        outcome: Result<RenderPipelineDescriptorView, SpecializedMeshPipelineError>,
    )
        requires
            self.wf(),
            self.pipelines.len() <= usize::MAX,
        ensures
            self.record(key, layout, outcome).wf(),
    {
        let after = self.record(key, layout, outcome);
        if self.lookup(key, layout) is None && outcome is Ok {
            let n = self.specializations.len() as int;
            assert forall|i: int, j: int| 0 <= i < j < after.specializations.len() implies !((
            #[trigger] after.specializations[i]).key == (#[trigger] after.specializations[j]).key
                && after.specializations[i].layout == after.specializations[j].layout) by {
                if j == n {
                    if after.specializations[i].key == key && after.specializations[i].layout
                        == layout {
                        assert(self.is_at(key, layout, i));
                    }
                }
            }
            assert forall|i: int| 0 <= i < after.specializations.len() implies (
            #[trigger] after.specializations[i]).id.0 < after.pipelines.len() by {}
        }
    }

    /// A key that was specialized with success is answered from memory from
    /// then on: the second specialization returns the handle of the first,
    /// whatever it would have come out as, and compiles nothing.
    pub proof fn theorem_specialize_twice(
        self,
        key: MaterialPipelineKey,
        layout: MeshVertexBufferLayoutView,
        first: Result<RenderPipelineDescriptorView, SpecializedMeshPipelineError>,
        second: Result<RenderPipelineDescriptorView, SpecializedMeshPipelineError>,
    )
        requires
            self.wf(),
            self.pipelines.len() <= usize::MAX,
            self.answer(key, layout, first) is Ok,
        ensures
            self.record(key, layout, first).answer(key, layout, second) == self.answer(
                key,
                layout,
                first,
            ),
            self.record(key, layout, first).record(key, layout, second) == self.record(
                key,
                layout,
                first,
            ),
            self.record(key, layout, first).record(key, layout, second).compiled() == self.record(
                key,
                layout,
                first,
            ).compiled(),
    {
        let after = self.record(key, layout, first);
        self.lemma_record_wf(key, layout, first);
        if self.lookup(key, layout) is None {
            let n = self.specializations.len() as int;
            after.lemma_lookup_at(key, layout, n);
        }
    }
}

impl View for PipelineCache {
    type V = PipelineCacheView;

    closed spec fn view(&self) -> PipelineCacheView {
        PipelineCacheView {
            pipelines: self.pipelines.deep_view(),
            specializations: self.specializations.deep_view(),
        }
    }
}

impl PipelineCache {
    /// What every cache that this module hands out satisfies.
    pub open spec fn wf(&self) -> bool {
        self@.wf()
    }

    /// The cache that holds nothing.
    pub fn new() -> (cache: Self)
        ensures
            cache.wf(),
            cache@.pipelines.len() == 0,
            cache@.specializations.len() == 0,
    {
        PipelineCache { pipelines: Vec::new(), specializations: Vec::new() }
    }

    /// Number of pipelines that were compiled.
    pub fn compiled(&self) -> (n: usize)
        ensures
            n == self@.compiled(),
    {
        self.pipelines.len()
    }

    /// Whether `id` is the handle of a compiled pipeline.
    pub fn contains(&self, id: CachedRenderPipelineId) -> (r: bool)
        ensures
            r == self@.contains(id),
    {
        id.0 < self.pipelines.len()
    }

    /// The descriptor that was compiled under `id`.
    pub fn get(&self, id: CachedRenderPipelineId) -> (r: Option<&RenderPipelineDescriptor>)
        ensures
            match r {
                Some(descriptor) => self@.contains(id) && descriptor@ == self@.pipelines[id.0 as int],
                None => !self@.contains(id),
            },
    {
        if id.0 < self.pipelines.len() {
            Some(&self.pipelines[id.0])
        } else {
            None
        }
    }

    /// The handle remembered for `key` and `layout`.
    pub fn lookup(&self, key: MaterialPipelineKey, layout: &MeshVertexBufferLayout) -> (r: Option<
        CachedRenderPipelineId,
    >)
        requires
            self.wf(),
        ensures
            r == self@.lookup(key, layout@),
    {
        let n = self.specializations.len();
        let mut i: usize = 0;
        while i < n
            invariant
                n == self.specializations.len(),
                i <= n,
                self@.wf(),
                forall|j: int| 0 <= j < i ==> !self@.is_at(key, layout@, j),
            decreases n - i,
        {
            let entry = &self.specializations[i];
            if entry.key == key && entry.layout.same_as(layout) {
                proof {
                    self@.lemma_lookup_at(key, layout@, i as int);
                }
                return Some(entry.id);
            }
            i += 1;
        }
        None
    }

    /// Takes note of how a specialization of `key` and `layout` came out,
    /// and answers it.
    ///
    /// Where the key and the layout are remembered, the remembered handle is
    /// the answer and `outcome` is dropped. Otherwise a descriptor is
    /// compiled under the next handle and remembered, and a failure is
    /// handed back without a trace in the cache.
    pub fn record(
        &mut self,
        key: MaterialPipelineKey,
        layout: &MeshVertexBufferLayout,
        outcome: Result<RenderPipelineDescriptor, SpecializedMeshPipelineError>,
    ) -> (r: Result<CachedRenderPipelineId, SpecializedMeshPipelineError>)
        requires
            old(self).wf(),
        ensures
            final(self).wf(),
            final(self)@ == old(self)@.record(key, layout@, view_of_outcome(outcome)),
            r == old(self)@.answer(key, layout@, view_of_outcome(outcome)),
    {
        proof {
            assert(self@.pipelines.len() == self.pipelines.len());
            self@.lemma_record_wf(key, layout@, view_of_outcome(outcome));
        }
        match self.lookup(key, layout) {
            Some(id) => Ok(id),
            None => match outcome {
                Ok(descriptor) => {
                    let id = CachedRenderPipelineId(self.pipelines.len());
                    let ghost before = self@;
                    self.pipelines.push(descriptor);
                    self.specializations.push(
                        CachedSpecialization { key, layout: layout.clone(), id },
                    );
                    assert(self.pipelines.deep_view() =~= before.pipelines.push(descriptor@));
                    assert(self.specializations.deep_view() =~= before.specializations.push(
                        CachedSpecializationView { key, layout: layout@, id },
                    ));
                    Ok(id)
                },
                Err(e) => Err(e),
            },
        }
    }

    /// The handle of the pipeline variant of `pipeline` for `key` and
    /// `layout`.
    ///
    /// A variant that is remembered is answered from memory, and nothing is
    /// compiled. Otherwise the pipeline specializes its descriptor, and the
    /// cache records how that came out.
    pub fn specialize<M: Material>(
        &mut self,
        pipeline: &VisbufferPrepassPipeline<M>,
        key: MaterialPipelineKey,
        layout: &MeshVertexBufferLayout,
    ) -> (r: Result<CachedRenderPipelineId, SpecializedMeshPipelineError>)
        requires
            old(self).wf(),
        ensures
            final(self).wf(),
            old(self)@.specializes(final(self)@, pipeline, key, layout, r),
    {
        match self.lookup(key, layout) {
            Some(id) => Ok(id),
            None => {
                let outcome = pipeline.specialize(key, layout);
                self.record(key, layout, outcome)
            },
        }
    }

    /// Forgets every specialization. The pipelines stay, each under its
    /// handle, so that what was encoded with them stays valid.
    pub fn invalidate(&mut self)
        ensures
            final(self).wf(),
            final(self)@.pipelines == old(self)@.pipelines,
            final(self)@.specializations.len() == 0,
    {
        self.specializations = Vec::new();
    }
}

/// The mathematical content of the outcome of a specialization.
pub open spec fn view_of_outcome(
    outcome: Result<RenderPipelineDescriptor, SpecializedMeshPipelineError>,
) -> Result<RenderPipelineDescriptorView, SpecializedMeshPipelineError> {
    match outcome {
        Ok(descriptor) => Ok(descriptor@),
        Err(e) => Err(e),
    }
}

} // verus!

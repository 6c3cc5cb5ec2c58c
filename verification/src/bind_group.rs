//! The bind group of the view: the uniforms that every draw of a view reads.

use crate::draw::{DrawError, RenderCommandResult};
use crate::encoder::{Command, TrackedRenderPass};
use crate::ids::{BindGroup, BindGroupLayout};
use crate::material::Material;
use crate::pipeline::{
    VisbufferPrepassPipeline,
    GLOBALS_BINDING,
    VIEW_BINDING,
    VISIBILITY_RANGES_BINDING,
};
use vstd::prelude::*;

verus! {

/// A buffer of the host.
#[derive(Clone, Copy, Debug, PartialEq, Eq, Hash, Structural)]
pub struct Buffer(pub u64);

/// A part of a buffer that a shader reads.
#[derive(Clone, Copy, Debug, PartialEq, Eq, Hash, Structural)]
pub struct BufferBinding {
    pub buffer: Buffer,
    pub offset: u64,
    /// Number of bytes, or the rest of the buffer.
    pub size: Option<u64>,
}

impl Buffer {
    /// The whole buffer as a binding.
    pub open spec fn spec_as_entire_binding(&self) -> BufferBinding {
        BufferBinding { buffer: *self, offset: 0, size: None }
    }

    /// The whole buffer as a binding.
    #[verifier::when_used_as_spec(spec_as_entire_binding)]
    pub fn as_entire_binding(&self) -> (binding: BufferBinding)
        ensures
            binding == self.spec_as_entire_binding(),
    {
        BufferBinding { buffer: *self, offset: 0, size: None }
    }
}

/// What a bind group holds at one binding.
#[derive(Clone, Copy, Debug, PartialEq, Eq, Hash, Structural)]
pub struct BindGroupEntry {
    pub binding: u32,
    pub resource: BufferBinding,
}

/// Everything the host needs to create one bind group.
#[derive(Clone, Debug, PartialEq, Eq)]
pub struct BindGroupDescriptor {
    pub label: &'static str,
    pub layout: BindGroupLayout,
    pub entries: Vec<BindGroupEntry>,
}

/// Mathematical content of a [`BindGroupDescriptor`].
pub struct BindGroupDescriptorView {
    pub label: &'static str,
    pub layout: BindGroupLayout,
    pub entries: Seq<BindGroupEntry>,
}

impl View for BindGroupDescriptor {
    type V = BindGroupDescriptorView;

    open spec fn view(&self) -> BindGroupDescriptorView {
        BindGroupDescriptorView { label: self.label, layout: self.layout, entries: self.entries@ }
    }
}

impl DeepView for BindGroupDescriptor {
    type V = BindGroupDescriptorView;

    open spec fn deep_view(&self) -> BindGroupDescriptorView {
        self@
    }
}

/// The bind groups that the host is to create. A bind group is known by its
/// position among them.
#[derive(Debug, PartialEq, Eq)]
pub struct BindGroups {
    pub descriptors: Vec<BindGroupDescriptor>,
}

impl BindGroups {
    /// No bind groups.
    pub fn new() -> (bind_groups: Self)
        ensures
            bind_groups.descriptors.deep_view() == Seq::<BindGroupDescriptorView>::empty(),
    {
        let bind_groups = BindGroups { descriptors: Vec::new() };
        bind_groups
    }

    /// Asks for a bind group, and names it.
    pub fn create_bind_group(
        &mut self,
        label: &'static str,
        layout: &BindGroupLayout,
        entries: Vec<BindGroupEntry>,
    ) -> (bind_group: BindGroup)
        ensures
            bind_group == BindGroup(old(self).descriptors.len() as u64),
            final(self).descriptors.deep_view() == old(self).descriptors.deep_view().push(
                BindGroupDescriptorView { label, layout: *layout, entries: entries@ },
            ),
    {
        let bind_group = BindGroup(self.descriptors.len() as u64);
        self.descriptors.push(BindGroupDescriptor { label, layout: *layout, entries });
        bind_group
    }
}

/// The uniforms of the views, where they were written.
#[derive(Clone, Copy, Debug, PartialEq, Eq, Hash, Structural)]
pub struct ViewUniforms {
    pub binding: Option<BufferBinding>,
}

/// The uniform of the globals, where it was written.
#[derive(Clone, Copy, Debug, PartialEq, Eq, Hash, Structural)]
pub struct GlobalsBuffer {
    pub binding: Option<BufferBinding>,
}

/// The visibility ranges, where they were written.
#[derive(Clone, Copy, Debug, PartialEq, Eq, Hash, Structural)]
pub struct RenderVisibilityRanges {
    pub buffer: Option<Buffer>,
}

/// Where the uniform of a view lies among the uniforms of the views.
#[derive(Clone, Copy, Debug, PartialEq, Eq, Hash, Structural)]
pub struct ViewUniformOffset {
    pub offset: u32,
}

/// The bind group of the view, once it was prepared.
#[derive(Clone, Copy, Debug, PartialEq, Eq, Hash, Structural)]
pub struct VisbufferPrepassViewBindGroup(pub Option<BindGroup>);

impl Default for VisbufferPrepassViewBindGroup {
    /// The bind group that was not prepared yet.
    fn default() -> (bind_group: Self)
        ensures
            bind_group == VisbufferPrepassViewBindGroup(None),
    {
        VisbufferPrepassViewBindGroup(None)
    }
}

/// The entries of the bind group of the view.
pub open spec fn spec_view_bind_group_entries(
    view: BufferBinding,
    globals: BufferBinding,
    visibility_ranges: Buffer,
) -> Seq<BindGroupEntry> {
    seq![
        BindGroupEntry { binding: VIEW_BINDING, resource: view },
        BindGroupEntry { binding: GLOBALS_BINDING, resource: globals },
        BindGroupEntry {
            binding: VISIBILITY_RANGES_BINDING,
            resource: visibility_ranges.as_entire_binding(),
        },
    ]
}

/// Prepares the bind group of the view.
///
/// Where the view uniforms, the globals and the visibility ranges were all
/// written, a bind group with the three of them is asked for and becomes the
/// bind group of the view. Where one is absent, nothing changes.
pub fn prepare_visbuffer_prepass_view_bind_group<M: Material>(
    render_device: &mut BindGroups,
    visbuffer_prepass_pipeline: &VisbufferPrepassPipeline<M>,
    view_uniforms: &ViewUniforms,
    globals_buffer: &GlobalsBuffer,
    visibility_ranges: &RenderVisibilityRanges,
    prepass_view_bind_group: &mut VisbufferPrepassViewBindGroup,
)
    ensures
        match (view_uniforms.binding, globals_buffer.binding, visibility_ranges.buffer) {
            (Some(view), Some(globals), Some(ranges)) => {
                &&& final(prepass_view_bind_group).0 == Some(
                    BindGroup(old(render_device).descriptors.len() as u64),
                )
                &&& final(render_device).descriptors.deep_view() == old(
                    render_device,
                ).descriptors.deep_view().push(
                    BindGroupDescriptorView {
                        label: "visbuffer_prepass_view_bind_group",
                        layout: visbuffer_prepass_pipeline.view_layout,
                        entries: spec_view_bind_group_entries(view, globals, ranges),
                    },
                )
            },
            _ => {
                &&& *final(prepass_view_bind_group) == *old(prepass_view_bind_group)
                &&& final(render_device).descriptors.deep_view() == old(
                    render_device,
                ).descriptors.deep_view()
            },
        },
{
    match (view_uniforms.binding, globals_buffer.binding, visibility_ranges.buffer) {
        (Some(view_binding), Some(globals_binding), Some(visibility_ranges_buffer)) => {
            let mut entries: Vec<BindGroupEntry> = Vec::new();
            entries.push(BindGroupEntry { binding: VIEW_BINDING, resource: view_binding });
            entries.push(BindGroupEntry { binding: GLOBALS_BINDING, resource: globals_binding });
            entries.push(
                BindGroupEntry {
                    binding: VISIBILITY_RANGES_BINDING,
                    resource: visibility_ranges_buffer.as_entire_binding(),
                },
            );
            assert(entries@ =~= spec_view_bind_group_entries(
                view_binding,
                globals_binding,
                visibility_ranges_buffer,
            ));
            prepass_view_bind_group.0 = Some(
                render_device.create_bind_group(
                    "visbuffer_prepass_view_bind_group",
                    &visbuffer_prepass_pipeline.view_layout,
                    entries,
                ),
            );
        },
        _ => {},
    }
}

/// Binds the bind group of the view at the index `I`.
pub struct SetVisbufferPrepassViewBindGroup<const I: usize>;

impl<const I: usize> SetVisbufferPrepassViewBindGroup<I> {
    /// Binds the bind group of the view at the index `I`, with the offset of
    /// the view among the view uniforms as its dynamic offset.
    ///
    /// Where the bind group of the view was not prepared, nothing is bound,
    /// and the step fails.
    #[inline]
    pub fn render(
        view_uniform_offset: &ViewUniformOffset,
        prepass_view_bind_group: &VisbufferPrepassViewBindGroup,
        pass: &mut TrackedRenderPass,
    ) -> (result: RenderCommandResult)
        requires
            old(pass).wf(),
        ensures
            final(pass).wf(),
            match prepass_view_bind_group.0 {
                Some(bind_group) => {
                    &&& result == RenderCommandResult::Success
                    &&& final(pass)@ == old(pass)@.push(
                        Command::SetBindGroup {
                            index: I,
                            bind_group,
                            dynamic_offset: Some(view_uniform_offset.offset),
                        },
                    )
                },
                None => {
                    &&& result == RenderCommandResult::Failure(DrawError::MissingViewBindGroup)
                    &&& final(pass)@ == old(pass)@
                },
            },
    {
        match prepass_view_bind_group.0 {
            Some(bind_group) => {
                pass.set_bind_group(I, bind_group, Some(view_uniform_offset.offset));
                RenderCommandResult::Success
            },
            None => RenderCommandResult::Failure(DrawError::MissingViewBindGroup),
        }
    }
}

} // verus!

//! The prepass pipeline: the template that every pipeline variant starts from,
//! and the variations that a key and a mesh layout select.

use crate::descriptor::{
    CompareFunction,
    DepthBiasState,
    DepthStencilState,
    FragmentState,
    FragmentStateView,
    FrontFace,
    MultisampleState,
    PolygonMode,
    PrimitiveState,
    RenderPipelineDescriptor,
    RenderPipelineDescriptorView,
    StencilFaceState,
    StencilState,
    VertexState,
    VertexStateView,
};
use crate::ids::{BindGroupLayout, ShaderHandle};
use crate::layout::{
    MeshVertexAttribute,
    MeshVertexBufferLayout,
    MeshVertexBufferLayoutView,
    VertexAttributeDescriptor,
    VertexBufferLayout,
};
use crate::material::{
    Material,
    MaterialPipeline,
    MaterialPipelineKey,
    MeshPipelineKey,
    ShaderRef,
    SpecializedMeshPipelineError,
};
use crate::target::{visbuffer_target_descriptors, CORE_3D_DEPTH_FORMAT};
use core::marker::PhantomData;
use vstd::prelude::*;

verus! {

/// Identifier of the prepass shader.
pub const VISBUFFER_PREPASS_SHADER_HANDLE: u128 = 21142424535904663167378759386861688790;

/// Identifier of the shader with the helpers of the prepass.
pub const VISBUFFER_UTILS_SHADER_HANDLE: u128 = 259939080518385425152214904457457353386;

/// Identifier of the shader with the inputs and outputs of the prepass.
pub const VISBUFFER_IO_SHADER_HANDLE: u128 = 261947013329844448084660199004371559244;

/// Number of storage buffers that visibility ranges need in one shader stage.
pub const VISIBILITY_RANGES_STORAGE_BUFFER_COUNT: u32 = 4;

/// First shader location of the skinning attributes.
pub const SKINNING_LOCATION: u32 = 5;

/// The sequence that holds `name` where `condition` holds, and nothing else.
pub open spec fn when(condition: bool, name: Seq<char>) -> Seq<Seq<char>> {
    if condition {
        seq![name]
    } else {
        Seq::empty()
    }
}

/// The bind group layouts of a mesh, one for each way a mesh is animated.
#[derive(Clone, Copy, Debug, PartialEq, Eq, Hash, Structural)]
pub struct MeshLayouts {
    pub model_only: BindGroupLayout,
    pub lightmapped: BindGroupLayout,
    pub skinned: BindGroupLayout,
    pub skinned_motion: BindGroupLayout,
    pub morphed: BindGroupLayout,
    pub morphed_motion: BindGroupLayout,
    pub morphed_skinned: BindGroupLayout,
    pub morphed_skinned_motion: BindGroupLayout,
}

impl MeshLayouts {
    /// The layout for a mesh with the given animation, lightmap and motion
    /// vector features. A lightmap counts only for a mesh that is neither
    /// skinned nor morphed and writes no motion vectors.
    pub open spec fn spec_select(
        &self,
        skinned: bool,
        morphed: bool,
        lightmapped: bool,
        motion_vectors: bool,
    ) -> BindGroupLayout {
        if skinned && morphed {
            if motion_vectors {
                self.morphed_skinned_motion
            } else {
                self.morphed_skinned
            }
        } else if skinned {
            if motion_vectors {
                self.skinned_motion
            } else {
                self.skinned
            }
        } else if morphed {
            if motion_vectors {
                self.morphed_motion
            } else {
                self.morphed
            }
        } else if lightmapped && !motion_vectors {
            self.lightmapped
        } else {
            self.model_only
        }
    }

    /// The layout for a mesh with the given features.
    #[verifier::when_used_as_spec(spec_select)]
    pub fn select(&self, skinned: bool, morphed: bool, lightmapped: bool, motion_vectors: bool) -> (layout:
        BindGroupLayout)
        ensures
            layout == self.spec_select(skinned, morphed, lightmapped, motion_vectors),
    {
        match (skinned, morphed, lightmapped, motion_vectors) {
            (true, false, _, true) => self.skinned_motion,
            (true, false, _, false) => self.skinned,
            (true, true, _, true) => self.morphed_skinned_motion,
            (true, true, _, false) => self.morphed_skinned,
            (false, true, _, true) => self.morphed_motion,
            (false, true, _, false) => self.morphed,
            (false, false, true, false) => self.lightmapped,
            (false, false, _, _) => self.model_only,
        }
    }
}

/// Whether a mesh with this layout is skinned: it has both joint indices and
/// joint weights.
pub open spec fn spec_is_skinned(layout: MeshVertexBufferLayoutView) -> bool {
    layout.contains(MeshVertexAttribute::joint_index().id) && layout.contains(
        MeshVertexAttribute::joint_weight().id,
    )
}

/// Whether a mesh with this layout is skinned.
pub fn is_skinned(layout: &MeshVertexBufferLayout) -> (skinned: bool)
    ensures
        skinned == spec_is_skinned(layout@),
{
    layout.contains(MeshVertexAttribute::joint_index().id) && layout.contains(
        MeshVertexAttribute::joint_weight().id,
    )
}

/// The shader definitions that skinning and morphing add.
pub open spec fn skinning_shader_defs(
    layout: MeshVertexBufferLayoutView,
    key: MeshPipelineKey,
    skins_use_uniform_buffers: bool,
) -> Seq<Seq<char>> {
    when(skins_use_uniform_buffers, "SKINS_USE_UNIFORM_BUFFERS"@) + when(
        spec_is_skinned(layout),
        "SKINNED"@,
    ) + when(key.morph_targets, "MORPH_TARGETS"@)
}

/// The vertex attributes that skinning adds: joint indices at `offset` and
/// joint weights at the next location.
pub open spec fn skinning_attributes(layout: MeshVertexBufferLayoutView, offset: u32) -> Seq<
    VertexAttributeDescriptor,
> {
    if spec_is_skinned(layout) {
        seq![
            MeshVertexAttribute::joint_index().at_shader_location(offset),
            MeshVertexAttribute::joint_weight().at_shader_location((offset + 1) as u32),
        ]
    } else {
        Seq::empty()
    }
}

/// Adds what skinning and morphing need to the shader definitions and to the
/// requested vertex attributes, and picks the bind group layout of the mesh.
pub fn setup_morph_and_skinning_defs(
    mesh_layouts: &MeshLayouts,
    layout: &MeshVertexBufferLayout,
    offset: u32,
    key: &MeshPipelineKey,
    shader_defs: &mut Vec<&'static str>,
    vertex_attributes: &mut Vec<VertexAttributeDescriptor>,
    skins_use_uniform_buffers: bool,
) -> (bind_group: BindGroupLayout)
    requires
        offset < u32::MAX,
    ensures
        final(shader_defs).deep_view() == old(shader_defs).deep_view() + skinning_shader_defs(
            layout@,
            *key,
            skins_use_uniform_buffers,
        ),
        final(vertex_attributes)@ == old(vertex_attributes)@ + skinning_attributes(layout@, offset),
        bind_group == mesh_layouts.select(
            spec_is_skinned(layout@),
            key.morph_targets,
            key.lightmapped,
            key.motion_vector_prepass,
        ),
{
    if skins_use_uniform_buffers {
        shader_defs.push("SKINS_USE_UNIFORM_BUFFERS");
    }
    let skinned = is_skinned(layout);
    if skinned {
        shader_defs.push("SKINNED");
        vertex_attributes.push(MeshVertexAttribute::joint_index().at_shader_location(offset));
        vertex_attributes.push(MeshVertexAttribute::joint_weight().at_shader_location(offset + 1));
    }
    if key.morph_targets {
        shader_defs.push("MORPH_TARGETS");
    }
    mesh_layouts.select(skinned, key.morph_targets, key.lightmapped, key.motion_vector_prepass)
}

/// Adds the definition `name` where `condition` holds.
fn push_when(shader_defs: &mut Vec<&'static str>, condition: bool, name: &'static str)
    ensures
        final(shader_defs).deep_view() == old(shader_defs).deep_view() + when(condition, name@),
{
    if condition {
        shader_defs.push(name);
    }
}

/// Adds the definition of texture coordinates and that of the set `set`
/// where `condition` holds.
fn push_uvs_when(shader_defs: &mut Vec<&'static str>, condition: bool, set: &'static str)
    ensures
        final(shader_defs).deep_view() == old(shader_defs).deep_view() + (if condition {
            seq!["VERTEX_UVS"@, set@]
        } else {
            Seq::empty()
        }),
{
    if condition {
        shader_defs.push("VERTEX_UVS");
        shader_defs.push(set);
    }
}

/// Requests `attribute` at `shader_location` where `condition` holds.
fn request_when(
    vertex_attributes: &mut Vec<VertexAttributeDescriptor>,
    condition: bool,
    attribute: MeshVertexAttribute,
    shader_location: u32,
)
    ensures
        final(vertex_attributes)@ == old(vertex_attributes)@ + (if condition {
            seq![attribute.at_shader_location(shader_location)]
        } else {
            Seq::empty()
        }),
{
    if condition {
        vertex_attributes.push(attribute.at_shader_location(shader_location));
    }
}

/// What the render device can do, as far as the prepass cares.
#[derive(Clone, Copy, Debug, PartialEq, Eq, Hash, Structural)]
pub struct RenderDevice {
    /// Whether depth clipping can be switched off.
    pub depth_clip_control: bool,
    /// Number of storage buffers that one shader stage may bind.
    pub max_storage_buffers_per_shader_stage: u32,
    /// Whether binding arrays (bindless textures) can be used.
    pub binding_arrays_are_usable: bool,
}

/// How a shader reads a buffer.
#[derive(Clone, Copy, Debug, PartialEq, Eq, Hash, Structural)]
pub enum BufferBindingType {
    Uniform,
    Storage { read_only: bool },
}

impl RenderDevice {
    /// The binding type for a read-only buffer of which a shader stage needs
    /// `buffers_per_shader_stage`: storage where the device has that many
    /// storage buffers, uniform otherwise.
    pub open spec fn spec_supported_read_only_binding_type(
        &self,
        buffers_per_shader_stage: u32,
    ) -> BufferBindingType {
        if self.max_storage_buffers_per_shader_stage >= buffers_per_shader_stage {
            BufferBindingType::Storage { read_only: true }
        } else {
            BufferBindingType::Uniform
        }
    }

    /// The binding type for a read-only buffer of which a shader stage needs
    /// `buffers_per_shader_stage`.
    #[verifier::when_used_as_spec(spec_supported_read_only_binding_type)]
    pub fn get_supported_read_only_binding_type(&self, buffers_per_shader_stage: u32) -> (ty:
        BufferBindingType)
        ensures
            ty == self.spec_supported_read_only_binding_type(buffers_per_shader_stage),
    {
        if self.max_storage_buffers_per_shader_stage >= buffers_per_shader_stage {
            BufferBindingType::Storage { read_only: true }
        } else {
            BufferBindingType::Uniform
        }
    }

    /// Whether skins are read from uniform buffers, because the device has no
    /// storage buffers.
    pub open spec fn spec_skins_use_uniform_buffers(&self) -> bool {
        self.max_storage_buffers_per_shader_stage == 0
    }

    /// Whether skins are read from uniform buffers.
    #[verifier::when_used_as_spec(spec_skins_use_uniform_buffers)]
    pub fn skins_use_uniform_buffers(&self) -> (uniform: bool)
        ensures
            uniform == self.spec_skins_use_uniform_buffers(),
    {
        self.max_storage_buffers_per_shader_stage == 0
    }
}

/// The shader stages that see a binding.
#[derive(Clone, Copy, Debug, PartialEq, Eq, Hash, Structural)]
pub struct ShaderStages {
    pub vertex: bool,
    pub fragment: bool,
}

/// What a view bind group holds at one binding.
#[derive(Clone, Copy, Debug, PartialEq, Eq, Hash, Structural)]
pub enum ViewBinding {
    /// The uniform of the view.
    View,
    /// The uniform of the globals (time, frame count).
    Globals,
    /// The buffer of the visibility ranges.
    VisibilityRanges,
}

/// One entry of the layout of the view bind group.
#[derive(Clone, Copy, Debug, PartialEq, Eq, Hash, Structural)]
pub struct BindGroupLayoutEntry {
    pub binding: u32,
    pub visibility: ShaderStages,
    pub ty: BufferBindingType,
    pub has_dynamic_offset: bool,
    /// What the buffer holds; the smallest buffer that may be bound holds one
    /// value of it.
    pub content: ViewBinding,
}

/// Binding of the view uniform.
pub const VIEW_BINDING: u32 = 0;

/// Binding of the globals uniform.
pub const GLOBALS_BINDING: u32 = 1;

/// Binding of the visibility ranges.
pub const VISIBILITY_RANGES_BINDING: u32 = 14;

/// The entries of the layout of the view bind group on `device`.
pub open spec fn spec_view_layout_entries(device: RenderDevice) -> Seq<BindGroupLayoutEntry> {
    seq![
        BindGroupLayoutEntry {
            binding: VIEW_BINDING,
            visibility: ShaderStages { vertex: true, fragment: true },
            ty: BufferBindingType::Uniform,
            has_dynamic_offset: true,
            content: ViewBinding::View,
        },
        BindGroupLayoutEntry {
            binding: GLOBALS_BINDING,
            visibility: ShaderStages { vertex: true, fragment: true },
            ty: BufferBindingType::Uniform,
            has_dynamic_offset: false,
            content: ViewBinding::Globals,
        },
        BindGroupLayoutEntry {
            binding: VISIBILITY_RANGES_BINDING,
            visibility: ShaderStages { vertex: true, fragment: false },
            ty: device.get_supported_read_only_binding_type(VISIBILITY_RANGES_STORAGE_BUFFER_COUNT),
            has_dynamic_offset: false,
            content: ViewBinding::VisibilityRanges,
        },
    ]
}

/// The entries of the layout of the view bind group on `device`: the view
/// uniform with a dynamic offset, the globals uniform, and the visibility
/// ranges, which only the vertex stage reads.
pub fn view_layout_entries(device: &RenderDevice) -> (entries: Vec<BindGroupLayoutEntry>)
    ensures
        entries@ == spec_view_layout_entries(*device),
{
    let mut entries: Vec<BindGroupLayoutEntry> = Vec::new();
    entries.push(
        BindGroupLayoutEntry {
            binding: VIEW_BINDING,
            visibility: ShaderStages { vertex: true, fragment: true },
            ty: BufferBindingType::Uniform,
            has_dynamic_offset: true,
            content: ViewBinding::View,
        },
    );
    entries.push(
        BindGroupLayoutEntry {
            binding: GLOBALS_BINDING,
            visibility: ShaderStages { vertex: true, fragment: true },
            ty: BufferBindingType::Uniform,
            has_dynamic_offset: false,
            content: ViewBinding::Globals,
        },
    );
    entries.push(
        BindGroupLayoutEntry {
            binding: VISIBILITY_RANGES_BINDING,
            visibility: ShaderStages { vertex: true, fragment: false },
            ty: device.get_supported_read_only_binding_type(VISIBILITY_RANGES_STORAGE_BUFFER_COUNT),
            has_dynamic_offset: false,
            content: ViewBinding::VisibilityRanges,
        },
    );
    entries
}

/// The shaders of the prepass. The registry is made once, when the renderer
/// starts, and handed to whatever needs a shader.
#[derive(Clone, Copy, Debug, PartialEq, Eq, Hash)]
pub struct ShaderRegistry {
    /// The vertex and fragment stages of the prepass.
    pub prepass: ShaderHandle,
    /// The helpers of the prepass.
    pub utils: ShaderHandle,
    /// The inputs and outputs of the prepass.
    pub io: ShaderHandle,
}

impl ShaderRegistry {
    /// The registry of the shaders that ship with the prepass.
    pub open spec fn spec_new() -> ShaderRegistry {
        ShaderRegistry {
            prepass: ShaderHandle::Weak(VISBUFFER_PREPASS_SHADER_HANDLE),
            utils: ShaderHandle::Weak(VISBUFFER_UTILS_SHADER_HANDLE),
            io: ShaderHandle::Weak(VISBUFFER_IO_SHADER_HANDLE),
        }
    }

    /// The registry of the shaders that ship with the prepass.
    #[verifier::when_used_as_spec(spec_new)]
    pub fn new() -> (registry: ShaderRegistry)
        ensures
            registry == Self::spec_new(),
    {
        ShaderRegistry {
            prepass: ShaderHandle::Weak(VISBUFFER_PREPASS_SHADER_HANDLE),
            utils: ShaderHandle::Weak(VISBUFFER_UTILS_SHADER_HANDLE),
            io: ShaderHandle::Weak(VISBUFFER_IO_SHADER_HANDLE),
        }
    }
}

/// Label of the layout of the view bind group.
pub const VIEW_LAYOUT_LABEL: &'static str = "visbuffer_prepass_view_layout";

/// Everything the host needs to create one bind group layout.
#[derive(Clone, Debug, PartialEq, Eq)]
pub struct BindGroupLayoutDescriptor {
    pub label: &'static str,
    pub entries: Vec<BindGroupLayoutEntry>,
}

/// Mathematical content of a [`BindGroupLayoutDescriptor`].
pub struct BindGroupLayoutDescriptorView {
    pub label: &'static str,
    pub entries: Seq<BindGroupLayoutEntry>,
}

impl View for BindGroupLayoutDescriptor {
    type V = BindGroupLayoutDescriptorView;

    open spec fn view(&self) -> BindGroupLayoutDescriptorView {
        BindGroupLayoutDescriptorView { label: self.label, entries: self.entries@ }
    }
}

impl DeepView for BindGroupLayoutDescriptor {
    type V = BindGroupLayoutDescriptorView;

    open spec fn deep_view(&self) -> BindGroupLayoutDescriptorView {
        self@
    }
}

/// The bind group layouts of the render world. A layout is known by its
/// position among them. Of a layout that is asked for here, the host finds
/// the descriptor to create it from; of a layout that the host made on its
/// own, nothing is known but that it is there.
#[derive(Debug, PartialEq, Eq)]
pub struct BindGroupLayouts {
    pub layouts: Vec<Option<BindGroupLayoutDescriptor>>,
}

impl BindGroupLayouts {
    /// No layouts.
    pub fn new() -> (layouts: Self)
        ensures
            layouts.layouts.deep_view() == Seq::<Option<BindGroupLayoutDescriptorView>>::empty(),
    {
        BindGroupLayouts { layouts: Vec::new() }
    }

    /// Takes note of a layout that the host made on its own, and names it.
    pub fn adopt(&mut self) -> (layout: BindGroupLayout)
        ensures
            layout == BindGroupLayout(old(self).layouts.len() as u64),
            final(self).layouts.deep_view() == old(self).layouts.deep_view().push(None),
    {
        let layout = BindGroupLayout(self.layouts.len() as u64);
        self.layouts.push(None);
        layout
    }

    /// Asks for a bind group layout, and names it.
    pub fn create_bind_group_layout(
        &mut self,
        label: &'static str,
        entries: Vec<BindGroupLayoutEntry>,
    ) -> (layout: BindGroupLayout)
        ensures
            layout == BindGroupLayout(old(self).layouts.len() as u64),
            final(self).layouts.deep_view() == old(self).layouts.deep_view().push(
                Some(BindGroupLayoutDescriptorView { label, entries: entries@ }),
            ),
    {
        let layout = BindGroupLayout(self.layouts.len() as u64);
        self.layouts.push(Some(BindGroupLayoutDescriptor { label, entries }));
        layout
    }
}

/// What the render world holds when the prepass pipeline is created.
#[derive(Debug, PartialEq, Eq)]
pub struct RenderWorld {
    pub render_device: RenderDevice,
    pub shaders: ShaderRegistry,
    /// The bind group layouts that were made or asked for so far.
    pub bind_group_layouts: BindGroupLayouts,
    pub mesh_layouts: MeshLayouts,
    /// The layout of the bind group of the material.
    pub material_layout: BindGroupLayout,
    pub material_pipeline: MaterialPipeline,
}

/// The prepass pipeline for the meshes of one material type.
#[derive(Debug)]
pub struct VisbufferPrepassPipeline<M: Material> {
    pub view_layout: BindGroupLayout,
    pub mesh_layouts: MeshLayouts,
    pub material_layout: BindGroupLayout,
    pub vertex_shader: Option<ShaderHandle>,
    pub fragment_shader: Option<ShaderHandle>,
    pub material_pipeline: MaterialPipeline,
    /// Whether skins will use uniform buffers on account of storage buffers
    /// being unavailable on this platform.
    pub skins_use_uniform_buffers: bool,
    pub depth_clip_control_supported: bool,
    /// Whether binding arrays (a.k.a. bindless textures) are usable on the
    /// current render device.
    pub binding_arrays_are_usable: bool,
    /// Where the shaders of the prepass are found.
    pub shaders: ShaderRegistry,
    pub marker: PhantomData<M>,
}

/// The shader that a material's reference stands for: none for the default,
/// the handle itself, or the handle of the shader at the path.
pub open spec fn spec_resolve_shader(shader: ShaderRef) -> Option<ShaderHandle> {
    match shader {
        ShaderRef::Default => None,
        ShaderRef::Handle(handle) => Some(handle),
        ShaderRef::Path(path) => Some(ShaderHandle::Path(path)),
    }
}

/// The shader that a material's reference stands for.
pub fn resolve_shader(shader: ShaderRef) -> (handle: Option<ShaderHandle>)
    ensures
        handle == spec_resolve_shader(shader),
{
    match shader {
        ShaderRef::Default => None,
        ShaderRef::Handle(handle) => Some(handle),
        ShaderRef::Path(path) => Some(ShaderHandle::Path(path)),
    }
}

impl<M: Material> VisbufferPrepassPipeline<M> {
    /// The pipeline for the render world `world`.
    ///
    /// The layout of the view bind group is asked for: the view uniform with
    /// a dynamic offset, the globals uniform, and the visibility ranges for
    /// the vertex stage. The other layouts and the material pipeline are
    /// taken over, the capabilities are read off the device, and the vertex
    /// shader is the one that the material names. There is no fragment
    /// shader of the material's.
    pub fn from_world(world: &mut RenderWorld) -> (pipeline: Self)
        ensures
            pipeline.view_layout == BindGroupLayout(
                old(world).bind_group_layouts.layouts.len() as u64,
            ),
            final(world).bind_group_layouts.layouts.deep_view() == old(
                world,
            ).bind_group_layouts.layouts.deep_view().push(
                Some(
                    BindGroupLayoutDescriptorView {
                        label: VIEW_LAYOUT_LABEL,
                        entries: spec_view_layout_entries(old(world).render_device),
                    },
                ),
            ),
            final(world).render_device == old(world).render_device,
            final(world).shaders == old(world).shaders,
            final(world).mesh_layouts == old(world).mesh_layouts,
            final(world).material_layout == old(world).material_layout,
            final(world).material_pipeline == old(world).material_pipeline,
            pipeline.mesh_layouts == old(world).mesh_layouts,
            pipeline.material_layout == old(world).material_layout,
            exists|shader: ShaderRef|
                call_ensures(M::prepass_vertex_shader, (), shader) && pipeline.vertex_shader
                    == spec_resolve_shader(shader),
            pipeline.fragment_shader is None,
            pipeline.material_pipeline == old(world).material_pipeline,
            pipeline.skins_use_uniform_buffers == old(
                world,
            ).render_device.skins_use_uniform_buffers(),
            pipeline.depth_clip_control_supported == old(world).render_device.depth_clip_control,
            pipeline.binding_arrays_are_usable == old(
                world,
            ).render_device.binding_arrays_are_usable,
            pipeline.shaders == old(world).shaders,
    {
        let render_device = world.render_device;

        let view_layout = world.bind_group_layouts.create_bind_group_layout(
            VIEW_LAYOUT_LABEL,
            view_layout_entries(&render_device),
        );

        let depth_clip_control_supported = render_device.depth_clip_control;

        VisbufferPrepassPipeline {
            view_layout,
            mesh_layouts: world.mesh_layouts,
            vertex_shader: resolve_shader(M::prepass_vertex_shader()),
            fragment_shader: None,
            material_layout: world.material_layout,
            material_pipeline: world.material_pipeline,
            skins_use_uniform_buffers: render_device.skins_use_uniform_buffers(),
            depth_clip_control_supported,
            binding_arrays_are_usable: render_device.binding_arrays_are_usable,
            shaders: world.shaders,
            marker: PhantomData,
        }
    }

    /// The shader definitions of the variant for `key` and `layout`.
    pub open spec fn spec_shader_defs(
        &self,
        key: MeshPipelineKey,
        layout: MeshVertexBufferLayoutView,
    ) -> Seq<Seq<char>> {
        seq!["VISBUFFER_PREPASS"@, "PREPASS_PIPELINE"@, "VERTEX_OUTPUT_INSTANCE_INDEX"@] + when(
            key.may_discard,
            "MAY_DISCARD"@,
        ) + when(layout.contains(MeshVertexAttribute::position().id), "VERTEX_POSITIONS"@) + when(
            key.unclipped_depth_ortho && !self.depth_clip_control_supported,
            "UNCLIPPED_DEPTH_ORTHO_EMULATION"@,
        ) + (if layout.contains(MeshVertexAttribute::uv_0().id) {
            seq!["VERTEX_UVS"@, "VERTEX_UVS_A"@]
        } else {
            Seq::empty()
        }) + (if layout.contains(MeshVertexAttribute::uv_1().id) {
            seq!["VERTEX_UVS"@, "VERTEX_UVS_B"@]
        } else {
            Seq::empty()
        }) + when(self.material_pipeline.bindless, "BINDLESS"@) + skinning_shader_defs(
            layout,
            key,
            self.skins_use_uniform_buffers,
        )
    }

    /// The vertex attributes that the variant for `layout` reads: each of
    /// position, the two texture coordinates and the skinning attributes that
    /// the mesh has, at its fixed shader location.
    pub open spec fn spec_vertex_attributes(layout: MeshVertexBufferLayoutView) -> Seq<
        VertexAttributeDescriptor,
    > {
        (if layout.contains(MeshVertexAttribute::position().id) {
            seq![MeshVertexAttribute::position().at_shader_location(0)]
        } else {
            Seq::empty()
        }) + (if layout.contains(MeshVertexAttribute::uv_0().id) {
            seq![MeshVertexAttribute::uv_0().at_shader_location(1)]
        } else {
            Seq::empty()
        }) + (if layout.contains(MeshVertexAttribute::uv_1().id) {
            seq![MeshVertexAttribute::uv_1().at_shader_location(2)]
        } else {
            Seq::empty()
        }) + skinning_attributes(layout, SKINNING_LOCATION)
    }

    /// The bind group layouts of the variant: view, mesh, material.
    pub open spec fn spec_bind_group_layouts(
        &self,
        key: MeshPipelineKey,
        layout: MeshVertexBufferLayoutView,
    ) -> Seq<BindGroupLayout> {
        seq![
            self.view_layout,
            self.mesh_layouts.select(
                spec_is_skinned(layout),
                key.morph_targets,
                key.lightmapped,
                key.motion_vector_prepass,
            ),
            self.material_layout,
        ]
    }

    /// The descriptor of the variant for `key` and `layout`, before the
    /// material has seen it.
    pub open spec fn spec_base_descriptor(
        &self,
        key: MaterialPipelineKey,
        layout: MeshVertexBufferLayoutView,
    ) -> RenderPipelineDescriptorView {
        RenderPipelineDescriptorView {
            label: Some("visbuffer_pipeline"@),
            layout: self.spec_bind_group_layouts(key.mesh_key, layout),
            push_constant_ranges: Seq::empty(),
            vertex: VertexStateView {
                shader: self.shaders.prepass,
                shader_defs: self.spec_shader_defs(key.mesh_key, layout),
                entry_point: "vertex"@,
                buffers: seq![layout.get_layout(Self::spec_vertex_attributes(layout)).unwrap()],
            },
            primitive: PrimitiveState {
                topology: key.mesh_key.primitive_topology,
                strip_index_format: None,
                front_face: FrontFace::Ccw,
                cull_mode: None,
                unclipped_depth: key.mesh_key.unclipped_depth_ortho
                    && self.depth_clip_control_supported,
                polygon_mode: PolygonMode::Fill,
                conservative: false,
            },
            depth_stencil: Some(
                DepthStencilState {
                    format: CORE_3D_DEPTH_FORMAT,
                    depth_write_enabled: true,
                    depth_compare: CompareFunction::GreaterEqual,
                    stencil: StencilState {
                        front: StencilFaceState::ignore(),
                        back: StencilFaceState::ignore(),
                        read_mask: 0,
                        write_mask: 0,
                    },
                    bias: DepthBiasState { constant: 0, slope_scale_bits: 0, clamp_bits: 0 },
                },
            ),
            multisample: MultisampleState {
                count: key.mesh_key.msaa_samples,
                mask: u64::MAX,
                alpha_to_coverage_enabled: false,
            },
            fragment: Some(
                FragmentStateView {
                    shader: self.shaders.prepass,
                    shader_defs: self.spec_shader_defs(key.mesh_key, layout),
                    entry_point: "fragment"@,
                    targets: crate::target::spec_visbuffer_target_descriptors(),
                },
            ),
            zero_initialize_workgroup_memory: false,
        }
    }

    /// A mesh has every attribute that the variant for its layout reads.
    pub proof fn lemma_vertex_attributes_resolve(layout: MeshVertexBufferLayoutView)
        ensures
            layout.can_resolve(Self::spec_vertex_attributes(layout)),
            layout.get_layout(Self::spec_vertex_attributes(layout)) is Ok,
    {
        let requests = Self::spec_vertex_attributes(layout);
        assert forall|i: int| 0 <= i < requests.len() implies layout.contains(
            #[trigger] requests[i].id,
        ) by {}
    }

    /// The shader definitions and the requested vertex attributes of the
    /// variant for `key` and `layout`, and the bind group layout of the mesh.
    fn variations(&self, key: &MeshPipelineKey, layout: &MeshVertexBufferLayout) -> (r: (
        Vec<&'static str>,
        Vec<VertexAttributeDescriptor>,
        BindGroupLayout,
    ))
        ensures
            r.0.deep_view() == self.spec_shader_defs(*key, layout@),
            r.1@ == Self::spec_vertex_attributes(layout@),
            r.2 == self.mesh_layouts.select(
                spec_is_skinned(layout@),
                key.morph_targets,
                key.lightmapped,
                key.motion_vector_prepass,
            ),
    {
        let mut shader_defs: Vec<&'static str> = Vec::new();
        let mut vertex_attributes: Vec<VertexAttributeDescriptor> = Vec::new();

        shader_defs.push("VISBUFFER_PREPASS");
        // Let the shader code know that it's running in a prepass pipeline.
        shader_defs.push("PREPASS_PIPELINE");
        shader_defs.push("VERTEX_OUTPUT_INSTANCE_INDEX");
        assert(shader_defs.deep_view() =~= seq![
            "VISBUFFER_PREPASS"@,
            "PREPASS_PIPELINE"@,
            "VERTEX_OUTPUT_INSTANCE_INDEX"@,
        ]);

        push_when(&mut shader_defs, key.may_discard, "MAY_DISCARD");

        let has_position = layout.contains(MeshVertexAttribute::position().id);
        push_when(&mut shader_defs, has_position, "VERTEX_POSITIONS");
        request_when(&mut vertex_attributes, has_position, MeshVertexAttribute::position(), 0);

        // For directional light shadow map views, use unclipped depth via either the
        // native GPU feature, or emulated by setting depth in the fragment shader for
        // GPUs that don't support it natively.
        let emulate_unclipped_depth = key.unclipped_depth_ortho
            && !self.depth_clip_control_supported;
        push_when(&mut shader_defs, emulate_unclipped_depth, "UNCLIPPED_DEPTH_ORTHO_EMULATION");

        let has_uv_0 = layout.contains(MeshVertexAttribute::uv_0().id);
        push_uvs_when(&mut shader_defs, has_uv_0, "VERTEX_UVS_A");
        request_when(&mut vertex_attributes, has_uv_0, MeshVertexAttribute::uv_0(), 1);

        let has_uv_1 = layout.contains(MeshVertexAttribute::uv_1().id);
        push_uvs_when(&mut shader_defs, has_uv_1, "VERTEX_UVS_B");
        request_when(&mut vertex_attributes, has_uv_1, MeshVertexAttribute::uv_1(), 2);

        // If bindless mode is on, add a `BINDLESS` define.
        push_when(&mut shader_defs, self.material_pipeline.bindless, "BINDLESS");

        let bind_group = setup_morph_and_skinning_defs(
            &self.mesh_layouts,
            layout,
            SKINNING_LOCATION,
            key,
            &mut shader_defs,
            &mut vertex_attributes,
            self.skins_use_uniform_buffers,
        );
        (shader_defs, vertex_attributes, bind_group)
    }

    /// The descriptor of the variant for `key` and `layout`, before the
    /// material has seen it.
    ///
    /// The attributes that the variant reads are among those that the mesh
    /// has, so resolving them against the layout never fails.
    pub fn base_descriptor(&self, key: MaterialPipelineKey, layout: &MeshVertexBufferLayout) -> (r:
        Result<RenderPipelineDescriptor, SpecializedMeshPipelineError>)
        ensures
            r is Ok,
            r->Ok_0@ == self.spec_base_descriptor(key, layout@),
    {
        let mut bind_group_layouts: Vec<BindGroupLayout> = Vec::new();
        bind_group_layouts.push(self.view_layout);
        // The bind group order is fixed in the shaders: the material comes last.
        bind_group_layouts.push(self.material_layout);

        let (shader_defs, vertex_attributes, bind_group) = self.variations(&key.mesh_key, layout);
        bind_group_layouts.insert(1, bind_group);
        assert(bind_group_layouts@ =~= self.spec_bind_group_layouts(key.mesh_key, layout@));

        let unclipped_depth = key.mesh_key.unclipped_depth_ortho
            && self.depth_clip_control_supported;

        proof {
            Self::lemma_vertex_attributes_resolve(layout@);
        }
        let vertex_buffer_layout = match layout.get_layout(vertex_attributes.as_slice()) {
            Ok(vertex_buffer_layout) => vertex_buffer_layout,
            Err(e) => {
                return Err(SpecializedMeshPipelineError::MissingVertexAttribute(e));
            },
        };
        let mut buffers: Vec<VertexBufferLayout> = Vec::new();
        buffers.push(vertex_buffer_layout);
        assert(buffers.deep_view() =~= seq![
            layout@.get_layout(Self::spec_vertex_attributes(layout@)).unwrap(),
        ]);

        let fragment_shader_defs = shader_defs.clone();

        let descriptor = RenderPipelineDescriptor {
            vertex: VertexState {
                shader: self.shaders.prepass,
                entry_point: "vertex",
                shader_defs,
                buffers,
            },
            fragment: Some(
                FragmentState {
                    shader: self.shaders.prepass,
                    entry_point: "fragment",
                    shader_defs: fragment_shader_defs,
                    targets: visbuffer_target_descriptors(),
                },
            ),
            layout: bind_group_layouts,
            primitive: PrimitiveState {
                topology: key.mesh_key.primitive_topology,
                strip_index_format: None,
                front_face: FrontFace::Ccw,
                cull_mode: None,
                unclipped_depth,
                polygon_mode: PolygonMode::Fill,
                conservative: false,
            },
            depth_stencil: Some(
                DepthStencilState {
                    format: CORE_3D_DEPTH_FORMAT,
                    depth_write_enabled: true,
                    depth_compare: CompareFunction::GreaterEqual,
                    stencil: StencilState {
                        front: StencilFaceState::ignore(),
                        back: StencilFaceState::ignore(),
                        read_mask: 0,
                        write_mask: 0,
                    },
                    bias: DepthBiasState { constant: 0, slope_scale_bits: 0, clamp_bits: 0 },
                },
            ),
            multisample: MultisampleState {
                count: key.mesh_key.msaa_samples,
                mask: u64::MAX,
                alpha_to_coverage_enabled: false,
            },
            push_constant_ranges: Vec::new(),
            label: Some("visbuffer_pipeline"),
            zero_initialize_workgroup_memory: false,
        };
        Ok(descriptor)
    }

    /// Whether `outcome` is what the material can make of the base descriptor
    /// of the variant for `key` and `layout`.
    pub open spec fn specializes_to(
        &self,
        key: MaterialPipelineKey,
        layout: &MeshVertexBufferLayout,
        outcome: Result<RenderPipelineDescriptor, SpecializedMeshPipelineError>,
    ) -> bool {
        exists|base: RenderPipelineDescriptor|
            base@ == self.spec_base_descriptor(key, layout@) && #[trigger] call_ensures(
                M::specialize,
                (&self.material_pipeline, base, layout, key),
                outcome,
            )
    }

    /// The plain material leaves every variant as the pipeline built it.
    pub proof fn theorem_plain_material(
        pipeline: &VisbufferPrepassPipeline<crate::material::PlainMaterial>,
        key: MaterialPipelineKey,
        layout: &MeshVertexBufferLayout,
        outcome: Result<RenderPipelineDescriptor, SpecializedMeshPipelineError>,
    )
        requires
            pipeline.specializes_to(key, layout, outcome),
        ensures
            outcome is Ok,
            outcome->Ok_0@ == pipeline.spec_base_descriptor(key, layout@),
    {
    }

    /// The descriptor of the pipeline variant for `key` and `layout`.
    ///
    /// The material is handed the base descriptor of the variant and decides:
    /// what it returns is returned.
    pub fn specialize(&self, key: MaterialPipelineKey, layout: &MeshVertexBufferLayout) -> (r:
        Result<RenderPipelineDescriptor, SpecializedMeshPipelineError>)
        ensures
            self.specializes_to(key, layout, r),
    {
        let descriptor = match self.base_descriptor(key, layout) {
            Ok(descriptor) => descriptor,
            Err(e) => {
                return Err(e);
            },
        };
        // This is a bit risky because it's possible to change something that would
        // break the prepass but be fine in the main pass.
        M::specialize(&self.material_pipeline, descriptor, layout, key)
    }
}

} // verus!

//! The description of a render pipeline that the host compiles.

use crate::ids::{BindGroupLayout, ShaderHandle};
use crate::layout::{VertexBufferLayout, VertexBufferLayoutView};
use crate::target::{ColorTargetState, TextureFormat};
use vstd::prelude::*;

verus! {

/// How vertices are assembled into primitives.
#[derive(Clone, Copy, Debug, PartialEq, Eq, Hash, Structural)]
pub enum PrimitiveTopology {
    PointList,
    LineList,
    LineStrip,
    TriangleList,
    TriangleStrip,
}

/// Width of the indices of an index buffer.
#[derive(Clone, Copy, Debug, PartialEq, Eq, Hash, Structural)]
pub enum IndexFormat {
    Uint16,
    Uint32,
}

/// Winding order of a front-facing triangle.
#[derive(Clone, Copy, Debug, PartialEq, Eq, Hash, Structural)]
pub enum FrontFace {
    Ccw,
    Cw,
}

/// A side of a triangle.
#[derive(Clone, Copy, Debug, PartialEq, Eq, Hash, Structural)]
pub enum Face {
    Front,
    Back,
}

/// How polygons are rasterised.
#[derive(Clone, Copy, Debug, PartialEq, Eq, Hash, Structural)]
pub enum PolygonMode {
    Fill,
    Line,
    Point,
}

/// A comparison of a new value with a stored one.
#[derive(Clone, Copy, Debug, PartialEq, Eq, Hash, Structural)]
pub enum CompareFunction {
    Never,
    Less,
    Equal,
    LessEqual,
    Greater,
    NotEqual,
    GreaterEqual,
    Always,
}

/// What happens to a stencil value.
#[derive(Clone, Copy, Debug, PartialEq, Eq, Hash, Structural)]
pub enum StencilOperation {
    Keep,
    Zero,
    Replace,
    Invert,
    IncrementClamp,
    DecrementClamp,
    IncrementWrap,
    DecrementWrap,
}

/// Stencil behaviour for one side of a triangle.
#[derive(Clone, Copy, Debug, PartialEq, Eq, Hash, Structural)]
pub struct StencilFaceState {
    pub compare: CompareFunction,
    pub fail_op: StencilOperation,
    pub depth_fail_op: StencilOperation,
    pub pass_op: StencilOperation,
}

impl StencilFaceState {
    /// The state that leaves the stencil buffer alone.
    pub open spec fn spec_ignore() -> StencilFaceState {
        StencilFaceState {
            compare: CompareFunction::Always,
            fail_op: StencilOperation::Keep,
            depth_fail_op: StencilOperation::Keep,
            pass_op: StencilOperation::Keep,
        }
    }

    /// The state that leaves the stencil buffer alone.
    #[verifier::when_used_as_spec(spec_ignore)]
    pub fn ignore() -> (state: StencilFaceState)
        ensures
            state == Self::spec_ignore(),
    {
        StencilFaceState {
            compare: CompareFunction::Always,
            fail_op: StencilOperation::Keep,
            depth_fail_op: StencilOperation::Keep,
            pass_op: StencilOperation::Keep,
        }
    }
}

/// Stencil behaviour of a pipeline.
#[derive(Clone, Copy, Debug, PartialEq, Eq, Hash, Structural)]
pub struct StencilState {
    pub front: StencilFaceState,
    pub back: StencilFaceState,
    pub read_mask: u32,
    pub write_mask: u32,
}

/// Depth bias of a pipeline. The two scale factors are held as the bits of
/// their single-precision values.
#[derive(Clone, Copy, Debug, PartialEq, Eq, Hash, Structural)]
pub struct DepthBiasState {
    pub constant: i32,
    pub slope_scale_bits: u32,
    pub clamp_bits: u32,
}

/// Depth and stencil behaviour of a pipeline.
#[derive(Clone, Copy, Debug, PartialEq, Eq, Hash, Structural)]
pub struct DepthStencilState {
    pub format: TextureFormat,
    pub depth_write_enabled: bool,
    pub depth_compare: CompareFunction,
    pub stencil: StencilState,
    pub bias: DepthBiasState,
}

/// Primitive assembly and rasterisation of a pipeline.
#[derive(Clone, Copy, Debug, PartialEq, Eq, Hash, Structural)]
pub struct PrimitiveState {
    pub topology: PrimitiveTopology,
    pub strip_index_format: Option<IndexFormat>,
    pub front_face: FrontFace,
    pub cull_mode: Option<Face>,
    pub unclipped_depth: bool,
    pub polygon_mode: PolygonMode,
    pub conservative: bool,
}

/// Multisampling of a pipeline.
#[derive(Clone, Copy, Debug, PartialEq, Eq, Hash, Structural)]
pub struct MultisampleState {
    pub count: u32,
    pub mask: u64,
    pub alpha_to_coverage_enabled: bool,
}

/// A range of push constants visible to some shader stages.
#[derive(Clone, Copy, Debug, PartialEq, Eq, Hash, Structural)]
pub struct PushConstantRange {
    pub stages: u32,
    pub start: u32,
    pub end: u32,
}

/// The vertex stage of a pipeline.
#[derive(Debug, PartialEq, Eq)]
pub struct VertexState {
    pub shader: ShaderHandle,
    pub shader_defs: Vec<&'static str>,
    pub entry_point: &'static str,
    pub buffers: Vec<VertexBufferLayout>,
}

/// Mathematical content of a [`VertexState`].
pub struct VertexStateView {
    pub shader: ShaderHandle,
    pub shader_defs: Seq<Seq<char>>,
    pub entry_point: Seq<char>,
    pub buffers: Seq<VertexBufferLayoutView>,
}

impl View for VertexState {
    type V = VertexStateView;

    open spec fn view(&self) -> VertexStateView {
        VertexStateView {
            shader: self.shader,
            shader_defs: self.shader_defs.deep_view(),
            entry_point: self.entry_point@,
            buffers: self.buffers.deep_view(),
        }
    }
}

/// The fragment stage of a pipeline.
#[derive(Debug, PartialEq, Eq)]
pub struct FragmentState {
    pub shader: ShaderHandle,
    pub shader_defs: Vec<&'static str>,
    pub entry_point: &'static str,
    pub targets: Vec<Option<ColorTargetState>>,
}

/// Mathematical content of a [`FragmentState`].
pub struct FragmentStateView {
    pub shader: ShaderHandle,
    pub shader_defs: Seq<Seq<char>>,
    pub entry_point: Seq<char>,
    pub targets: Seq<Option<ColorTargetState>>,
}

impl View for FragmentState {
    type V = FragmentStateView;

    open spec fn view(&self) -> FragmentStateView {
        FragmentStateView {
            shader: self.shader,
            shader_defs: self.shader_defs.deep_view(),
            entry_point: self.entry_point@,
            targets: self.targets@,
        }
    }
}

/// Everything the host needs to compile one render pipeline.
#[derive(Debug, PartialEq, Eq)]
pub struct RenderPipelineDescriptor {
    pub label: Option<&'static str>,
    pub layout: Vec<BindGroupLayout>,
    pub push_constant_ranges: Vec<PushConstantRange>,
    pub vertex: VertexState,
    pub primitive: PrimitiveState,
    pub depth_stencil: Option<DepthStencilState>,
    pub multisample: MultisampleState,
    pub fragment: Option<FragmentState>,
    pub zero_initialize_workgroup_memory: bool,
}

/// Mathematical content of a [`RenderPipelineDescriptor`].
pub struct RenderPipelineDescriptorView {
    pub label: Option<Seq<char>>,
    pub layout: Seq<BindGroupLayout>,
    pub push_constant_ranges: Seq<PushConstantRange>,
    pub vertex: VertexStateView,
    pub primitive: PrimitiveState,
    pub depth_stencil: Option<DepthStencilState>,
    pub multisample: MultisampleState,
    pub fragment: Option<FragmentStateView>,
    pub zero_initialize_workgroup_memory: bool,
}

impl View for RenderPipelineDescriptor {
    type V = RenderPipelineDescriptorView;

    open spec fn view(&self) -> RenderPipelineDescriptorView {
        RenderPipelineDescriptorView {
            label: match self.label {
                Some(label) => Some(label@),
                None => None,
            },
            layout: self.layout@,
            push_constant_ranges: self.push_constant_ranges@,
            vertex: self.vertex@,
            primitive: self.primitive,
            depth_stencil: self.depth_stencil,
            multisample: self.multisample,
            fragment: match self.fragment {
                Some(fragment) => Some(fragment@),
                None => None,
            },
            zero_initialize_workgroup_memory: self.zero_initialize_workgroup_memory,
        }
    }
}

} // verus!

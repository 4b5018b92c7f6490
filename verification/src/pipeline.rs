//! The description of a render pipeline, as plain values.
//!
//! A description holds what a pipeline family decides: the shader stages, the
//! depth and stencil test, multisampling and the color targets. Numbers that the
//! GPU reads as floating point are held as IEEE 754 single-precision bit
//! patterns.

use crate::render_resource::{BindGroupLayout, ShaderHandle, TextureFormat};
use vstd::prelude::*;

verus! {

/// How a new depth or stencil value is held against the one already there.
#[derive(Clone, Copy, Debug, PartialEq, Eq, Hash, Structural)]
pub enum CompareFunction {
    Never,
    Less,
    Equal,
    LessEqual,
    Greater,
    NotEqual,
    GreaterEqual,
    Always,
}

/// What happens to a stencil value after a test.
#[derive(Clone, Copy, Debug, PartialEq, Eq, Hash, Structural)]
pub enum StencilOperation {
    Keep,
    Zero,
    Replace,
    Invert,
    IncrementClamp,
    DecrementClamp,
    IncrementWrap,
    DecrementWrap,
}

/// The stencil test of the faces of one orientation.
#[derive(Clone, Copy, Debug, PartialEq, Eq, Hash, Structural)]
pub struct StencilFaceState {
    pub compare: CompareFunction,
    pub fail_op: StencilOperation,
    pub depth_fail_op: StencilOperation,
    pub pass_op: StencilOperation,
}

impl StencilFaceState {
    /// The test that always passes and never changes the stencil value.
    pub open spec fn spec_ignore() -> StencilFaceState {
        StencilFaceState {
            compare: CompareFunction::Always,
            fail_op: StencilOperation::Keep,
            depth_fail_op: StencilOperation::Keep,
            pass_op: StencilOperation::Keep,
        }
    }

    /// The test that always passes and never changes the stencil value.
    pub fn ignore() -> (face: StencilFaceState)
        ensures
            face == Self::spec_ignore(),
    {
        StencilFaceState {
            compare: CompareFunction::Always,
            fail_op: StencilOperation::Keep,
            depth_fail_op: StencilOperation::Keep,
            pass_op: StencilOperation::Keep,
        }
    }
}

/// The stencil test of a pipeline.
#[derive(Clone, Copy, Debug, PartialEq, Eq, Hash, Structural)]
pub struct StencilState {
    pub front: StencilFaceState,
    pub back: StencilFaceState,
    pub read_mask: u32,
    pub write_mask: u32,
}

impl StencilState {
    /// Whether the stencil test is switched off: both faces ignore it and
    /// nothing is read or written.
    pub open spec fn is_disabled(self) -> bool {
        &&& self.front == StencilFaceState::spec_ignore()
        &&& self.back == StencilFaceState::spec_ignore()
        &&& self.read_mask == 0
        &&& self.write_mask == 0
    }
}

/// The bias added to the depth of a fragment. Slope scale and clamp hold bit
/// patterns.
#[derive(Clone, Copy, Debug, PartialEq, Eq, Hash, Structural)]
pub struct DepthBiasState {
    pub constant: i32,
    pub slope_scale: u32,
    pub clamp: u32,
}

/// The depth and stencil test of a pipeline.
#[derive(Clone, Copy, Debug, PartialEq, Eq, Hash, Structural)]
pub struct DepthStencilState {
    pub format: TextureFormat,
    pub depth_write_enabled: bool,
    pub depth_compare: CompareFunction,
    pub stencil: StencilState,
    pub bias: DepthBiasState,
}

/// The multisampling of a pipeline.
#[derive(Clone, Copy, Debug, PartialEq, Eq, Hash, Structural)]
pub struct MultisampleState {
    pub count: u32,
    pub mask: u64,
    pub alpha_to_coverage_enabled: bool,
}

/// How the color of a fragment is combined with the color already in the
/// target.
#[derive(Clone, Copy, Debug, PartialEq, Eq, Hash, Structural)]
pub enum BlendState {
    Replace,
    AlphaBlending,
    PremultipliedAlphaBlending,
}

/// The channels of a color target that a pipeline writes.
#[derive(Clone, Copy, Debug, PartialEq, Eq, Hash, Structural)]
pub struct ColorWrites {
    pub red: bool,
    pub green: bool,
    pub blue: bool,
    pub alpha: bool,
}

impl ColorWrites {
    /// All four channels.
    pub open spec fn spec_all() -> ColorWrites {
        ColorWrites { red: true, green: true, blue: true, alpha: true }
    }

    /// All four channels.
    pub fn all() -> (writes: ColorWrites)
        ensures
            writes == Self::spec_all(),
    {
        ColorWrites { red: true, green: true, blue: true, alpha: true }
    }
}

/// One color target of a pipeline. Without a blend state the fragment's color
/// replaces what the target holds, and no blending hardware is used.
#[derive(Clone, Copy, Debug, PartialEq, Eq, Hash, Structural)]
pub struct ColorTargetState {
    pub format: TextureFormat,
    pub blend: Option<BlendState>,
    pub write_mask: ColorWrites,
}

/// The vertex stage of a pipeline.
#[derive(Clone, Debug, PartialEq, Eq)]
pub struct VertexState {
    pub shader: ShaderHandle,
    pub entry_point: String,
}

/// The mathematical content of a [`VertexState`].
pub struct VertexStateView {
    pub shader: ShaderHandle,
    pub entry_point: Seq<char>,
}

impl View for VertexState {
    type V = VertexStateView;

    open spec fn view(&self) -> VertexStateView {
        VertexStateView { shader: self.shader, entry_point: self.entry_point@ }
    }
}

/// The fragment stage of a pipeline.
#[derive(Clone, Debug, PartialEq, Eq)]
pub struct FragmentState {
    pub shader: ShaderHandle,
    pub entry_point: String,
    pub targets: Vec<Option<ColorTargetState>>,
}

/// The mathematical content of a [`FragmentState`].
pub struct FragmentStateView {
    pub shader: ShaderHandle,
    pub entry_point: Seq<char>,
    pub targets: Seq<Option<ColorTargetState>>,
}

impl View for FragmentState {
    type V = FragmentStateView;

    open spec fn view(&self) -> FragmentStateView {
        FragmentStateView {
            shader: self.shader,
            entry_point: self.entry_point@,
            targets: self.targets@,
        }
    }
}

/// The description from which a render pipeline is compiled.
#[derive(Clone, Debug, PartialEq, Eq)]
pub struct RenderPipelineDescriptor {
    pub label: Option<String>,
    pub layout: Vec<BindGroupLayout>,
    pub vertex: VertexState,
    pub depth_stencil: Option<DepthStencilState>,
    pub multisample: MultisampleState,
    pub fragment: Option<FragmentState>,
}

/// The mathematical content of a [`RenderPipelineDescriptor`].
pub struct RenderPipelineDescriptorView {
    pub label: Option<Seq<char>>,
    pub layout: Seq<BindGroupLayout>,
    pub vertex: VertexStateView,
    pub depth_stencil: Option<DepthStencilState>,
    pub multisample: MultisampleState,
    pub fragment: Option<FragmentStateView>,
}

impl View for RenderPipelineDescriptor {
    type V = RenderPipelineDescriptorView;

    open spec fn view(&self) -> RenderPipelineDescriptorView {
        RenderPipelineDescriptorView {
            label: match self.label {
                Some(label) => Some(label@),
                None => None,
            },
            layout: self.layout@,
            vertex: self.vertex@,
            depth_stencil: self.depth_stencil,
            multisample: self.multisample,
            fragment: match self.fragment {
                Some(fragment) => Some(fragment@),
                None => None,
            },
        }
    }
}

} // verus!

//! The skybox of a 3D camera: its pipeline family, the variants of that family
//! that are in use, and the bind group that each view draws it with.

pub mod bind_groups;
pub mod specialization;

use crate::bind_group::{
    BindGroupLayoutDescriptor, BindGroupLayoutDescriptorView, BindGroupLayoutEntry, BindingType,
    BufferBindingType, SamplerBindingType, ShaderStages, TextureSampleType, TextureViewDimension,
    buffer_size, spec_buffer_size,
};
use crate::pipeline::{
    ColorTargetState, ColorWrites, CompareFunction, DepthBiasState, DepthStencilState,
    FragmentState, FragmentStateView, MultisampleState, RenderPipelineDescriptor,
    RenderPipelineDescriptorView, StencilFaceState, StencilState, VertexState, VertexStateView,
};
use crate::render_resource::{
    BindGroupLayout, ImageHandle, ShaderHandle, TextureFormat, TEXTURE_FORMAT_HDR,
};
use vstd::prelude::*;

verus! {

/// The shader of the skybox, known by a number that never changes.
pub const SKYBOX_SHADER_HANDLE: u128 = 55594763423201;

/// The stage of a frame's preparation in which a system runs. Pipelines are
/// prepared before bind groups.
#[derive(Clone, Copy, Debug, PartialEq, Eq, Structural)]
pub enum RenderSet {
    Prepare,
    PrepareBindGroups,
}

/// The systems that prepare the skybox of each view for rendering.
#[derive(Clone, Copy, Debug, PartialEq, Eq, Structural)]
pub enum SkyboxSystem {
    PreparePipelines,
    PrepareBindGroups,
}

/// Adds the skybox to a renderer.
#[derive(Clone, Copy, Debug, PartialEq, Eq, Structural)]
pub struct SkyboxPlugin;

impl SkyboxPlugin {
    /// The systems of the skybox with the stage in which each runs: pipelines
    /// are specialized while views are prepared, bind groups are assembled
    /// afterwards.
    pub fn systems(&self) -> (systems: Vec<(SkyboxSystem, RenderSet)>)
        ensures
            systems@ == seq![
                (SkyboxSystem::PreparePipelines, RenderSet::Prepare),
                (SkyboxSystem::PrepareBindGroups, RenderSet::PrepareBindGroups),
            ],
    {
        let mut systems = Vec::new();
        systems.push((SkyboxSystem::PreparePipelines, RenderSet::Prepare));
        systems.push((SkyboxSystem::PrepareBindGroups, RenderSet::PrepareBindGroups));
        proof {
            assert(systems@ =~= seq![
                (SkyboxSystem::PreparePipelines, RenderSet::Prepare),
                (SkyboxSystem::PrepareBindGroups, RenderSet::PrepareBindGroups),
            ]);
        }
        systems
    }
}

/// Gives a 3D camera a skybox, drawn from a cubemap image.
#[derive(Clone, Copy, Debug, PartialEq, Eq, Structural)]
pub struct Skybox(pub ImageHandle);

/// What selects a variant of the skybox pipeline.
#[derive(Clone, Copy, Debug, PartialEq, Eq, Hash, Structural)]
pub struct SkyboxPipelineKey {
    pub hdr: bool,
    pub samples: u32,
    pub depth_format: TextureFormat,
}

/// The skybox pipeline family: the bind group layout that all of its variants
/// share.
#[derive(Clone, Copy, Debug, PartialEq, Eq, Structural)]
pub struct SkyboxPipeline {
    pub bind_group_layout: BindGroupLayout,
}

impl SkyboxPipeline {
    /// The layout of the skybox's bind group: at binding 0 a cube texture that
    /// the fragment stage samples with filtering, at binding 1 the filtering
    /// sampler, at binding 2 the uniforms of the view, which the vertex and the
    /// fragment stage read at a dynamic offset.
    pub open spec fn spec_layout_descriptor(view_uniform_size: u64) -> BindGroupLayoutDescriptorView {
        BindGroupLayoutDescriptorView {
            label: Some("skybox_bind_group_layout"@),
            entries: seq![
                BindGroupLayoutEntry {
                    binding: 0,
                    visibility: ShaderStages::spec_fragment(),
                    ty: BindingType::Texture {
                        sample_type: TextureSampleType::Float { filterable: true },
                        view_dimension: TextureViewDimension::Cube,
                        multisampled: false,
                    },
                    count: None,
                },
                BindGroupLayoutEntry {
                    binding: 1,
                    visibility: ShaderStages::spec_fragment(),
                    ty: BindingType::Sampler(SamplerBindingType::Filtering),
                    count: None,
                },
                BindGroupLayoutEntry {
                    binding: 2,
                    visibility: ShaderStages::spec_vertex_fragment(),
                    ty: BindingType::Buffer {
                        ty: BufferBindingType::Uniform,
                        has_dynamic_offset: true,
                        min_binding_size: spec_buffer_size(view_uniform_size),
                    },
                    count: None,
                },
            ],
        }
    }

    /// Describes the layout of the skybox's bind group, for uniforms of the
    /// given size in bytes per view.
    pub fn layout_descriptor(view_uniform_size: u64) -> (descriptor: BindGroupLayoutDescriptor)
        ensures
            descriptor@ == Self::spec_layout_descriptor(view_uniform_size),
    {
        let mut entries = Vec::new();
        entries.push(
            BindGroupLayoutEntry {
                binding: 0,
                visibility: ShaderStages::fragment(),
                ty: BindingType::Texture {
                    sample_type: TextureSampleType::Float { filterable: true },
                    view_dimension: TextureViewDimension::Cube,
                    multisampled: false,
                },
                count: None,
            },
        );
        entries.push(
            BindGroupLayoutEntry {
                binding: 1,
                visibility: ShaderStages::fragment(),
                ty: BindingType::Sampler(SamplerBindingType::Filtering),
                count: None,
            },
        );
        entries.push(
            BindGroupLayoutEntry {
                binding: 2,
                visibility: ShaderStages::vertex_fragment(),
                ty: BindingType::Buffer {
                    ty: BufferBindingType::Uniform,
                    has_dynamic_offset: true,
                    min_binding_size: buffer_size(view_uniform_size),
                },
                count: None,
            },
        );
        let descriptor = BindGroupLayoutDescriptor {
            label: Some("skybox_bind_group_layout".to_string()),
            entries,
        };
        proof {
            assert(descriptor@.entries =~= Self::spec_layout_descriptor(view_uniform_size).entries);
        }
        descriptor
    }

    /// The pipeline family whose variants all use the given layout.
    pub fn new(bind_group_layout: BindGroupLayout) -> (pipeline: SkyboxPipeline)
        ensures
            pipeline.bind_group_layout == bind_group_layout,
    {
        SkyboxPipeline { bind_group_layout }
    }

    /// The color format that a key selects: the extended-range format for an
    /// HDR view, the standard 8-bit format otherwise.
    pub open spec fn color_format(key: SkyboxPipelineKey) -> TextureFormat {
        if key.hdr {
            TEXTURE_FORMAT_HDR
        } else {
            TextureFormat::spec_bevy_default()
        }
    }

    /// The description of the variant that a key selects.
    ///
    /// Whatever the key: the depth test passes where the new depth is greater
    /// or equal, as reversed depth asks; depth is not written; the stencil test
    /// is off; nothing is blended. The key gives the format of the depth
    /// target, the sample count, and through its HDR flag the color format.
    pub open spec fn spec_specialize(self, key: SkyboxPipelineKey) -> RenderPipelineDescriptorView {
        RenderPipelineDescriptorView {
            label: Some("skybox_pipeline"@),
            layout: seq![self.bind_group_layout],
            vertex: VertexStateView {
                shader: ShaderHandle(SKYBOX_SHADER_HANDLE),
                entry_point: "skybox_vertex"@,
            },
            depth_stencil: Some(
                DepthStencilState {
                    format: key.depth_format,
                    depth_write_enabled: false,
                    depth_compare: CompareFunction::GreaterEqual,
                    stencil: StencilState {
                        front: StencilFaceState::spec_ignore(),
                        back: StencilFaceState::spec_ignore(),
                        read_mask: 0,
                        write_mask: 0,
                    },
                    bias: DepthBiasState { constant: 0, slope_scale: 0, clamp: 0 },
                },
            ),
            multisample: MultisampleState {
                count: key.samples,
                mask: u64::MAX,
                alpha_to_coverage_enabled: false,
            },
            fragment: Some(
                FragmentStateView {
                    shader: ShaderHandle(SKYBOX_SHADER_HANDLE),
                    entry_point: "skybox_fragment"@,
                    targets: seq![
                        Some(
                            ColorTargetState {
                                format: Self::color_format(key),
                                blend: None,
                                write_mask: ColorWrites::spec_all(),
                            },
                        ),
                    ],
                },
            ),
        }
    }

    /// Describes the variant of the skybox pipeline that the key selects.
    pub fn specialize(&self, key: SkyboxPipelineKey) -> (descriptor: RenderPipelineDescriptor)
        ensures
            descriptor@ == self.spec_specialize(key),
            descriptor@.depth_stencil matches Some(depth_stencil) && depth_stencil.depth_compare
                == CompareFunction::GreaterEqual && !depth_stencil.depth_write_enabled,
    {
        let mut layout = Vec::new();
        layout.push(self.bind_group_layout);
        let mut targets = Vec::new();
        targets.push(
            Some(
                ColorTargetState {
                    format: if key.hdr {
                        TEXTURE_FORMAT_HDR
                    } else {
                        TextureFormat::bevy_default()
                    },
                    // A replacing blend state would say the same and may cost more.
                    blend: None,
                    write_mask: ColorWrites::all(),
                },
            ),
        );
        let descriptor = RenderPipelineDescriptor {
            label: Some("skybox_pipeline".to_string()),
            layout,
            vertex: VertexState {
                shader: ShaderHandle(SKYBOX_SHADER_HANDLE),
                entry_point: "skybox_vertex".to_string(),
            },
            depth_stencil: Some(
                DepthStencilState {
                    format: key.depth_format,
                    depth_write_enabled: false,
                    depth_compare: CompareFunction::GreaterEqual,
                    stencil: StencilState {
                        front: StencilFaceState::ignore(),
                        back: StencilFaceState::ignore(),
                        read_mask: 0,
                        write_mask: 0,
                    },
                    bias: DepthBiasState { constant: 0, slope_scale: 0, clamp: 0 },
                },
            ),
            multisample: MultisampleState {
                count: key.samples,
                mask: !0u64,
                alpha_to_coverage_enabled: false,
            },
            fragment: Some(
                FragmentState {
                    shader: ShaderHandle(SKYBOX_SHADER_HANDLE),
                    entry_point: "skybox_fragment".to_string(),
                    targets,
                },
            ),
        };
        proof {
            assert(!0u64 == u64::MAX) by (bit_vector);
            assert(descriptor@.layout =~= self.spec_specialize(key).layout);
            assert(descriptor@.fragment->0.targets =~= self.spec_specialize(key).fragment->0.targets);
        }
        descriptor
    }
}

/// In every variant of the skybox pipeline the depth test passes where the
/// new depth is greater or equal, depth is not written, the stencil test is
/// off, and the one color target is not blended.
pub proof fn lemma_fixed_policy(pipeline: SkyboxPipeline, key: SkyboxPipelineKey)
    ensures
        pipeline.spec_specialize(key).depth_stencil matches Some(depth_stencil) && {
            &&& depth_stencil.depth_compare == CompareFunction::GreaterEqual
            &&& !depth_stencil.depth_write_enabled
            &&& depth_stencil.stencil.is_disabled()
        },
        pipeline.spec_specialize(key).fragment matches Some(fragment) && {
            &&& fragment.targets.len() == 1
            &&& fragment.targets[0] matches Some(target) && target.blend is None
        },
{
}

/// What the key gives to the description: the sample count and the format of
/// the depth target as they stand in the key, and the color format by the HDR
/// flag.
pub proof fn lemma_key_in_descriptor(pipeline: SkyboxPipeline, key: SkyboxPipelineKey)
    ensures
        pipeline.spec_specialize(key).multisample.count == key.samples,
        pipeline.spec_specialize(key).depth_stencil->0.format == key.depth_format,
        pipeline.spec_specialize(key).fragment->0.targets[0]->0.format == (if key.hdr {
            TextureFormat::Rgba16Float
        } else {
            TextureFormat::Rgba8UnormSrgb
        }),
{
}

/// Two keys that differ, in the HDR flag, the sample count or the depth
/// format, select descriptions that differ.
pub proof fn lemma_descriptor_determines_key(
    pipeline: SkyboxPipeline,
    key1: SkyboxPipelineKey,
    key2: SkyboxPipelineKey,
)
    requires
        pipeline.spec_specialize(key1) == pipeline.spec_specialize(key2),
    ensures
        key1 == key2,
{
    lemma_key_in_descriptor(pipeline, key1);
    lemma_key_in_descriptor(pipeline, key2);
}

} // verus!

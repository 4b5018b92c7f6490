//! Bind groups and their layouts, as plain values, and the two sources of the
//! resources that a bind group refers to: uploaded images and the uniform
//! buffer of the views.

use crate::render_resource::{BindGroupLayout, BufferId, ImageHandle, SamplerId, TextureViewId};
use vstd::prelude::*;

verus! {

/// The shader stages that can see a binding.
#[derive(Clone, Copy, Debug, PartialEq, Eq, Hash, Structural)]
pub struct ShaderStages {
    pub vertex: bool,
    pub fragment: bool,
    pub compute: bool,
}

impl ShaderStages {
    /// The fragment stage alone.
    pub open spec fn spec_fragment() -> ShaderStages {
        ShaderStages { vertex: false, fragment: true, compute: false }
    }

    /// The vertex and the fragment stage.
    pub open spec fn spec_vertex_fragment() -> ShaderStages {
        ShaderStages { vertex: true, fragment: true, compute: false }
    }

    /// The fragment stage alone.
    pub fn fragment() -> (stages: ShaderStages)
        ensures
            stages == Self::spec_fragment(),
    {
        ShaderStages { vertex: false, fragment: true, compute: false }
    }

    /// The vertex and the fragment stage.
    pub fn vertex_fragment() -> (stages: ShaderStages)
        ensures
            stages == Self::spec_vertex_fragment(),
    {
        ShaderStages { vertex: true, fragment: true, compute: false }
    }
}

/// How a shader reads the texels of a texture.
#[derive(Clone, Copy, Debug, PartialEq, Eq, Hash, Structural)]
pub enum TextureSampleType {
    Float { filterable: bool },
    Depth,
    Sint,
    Uint,
}

/// The shape of a texture view.
#[derive(Clone, Copy, Debug, PartialEq, Eq, Hash, Structural)]
pub enum TextureViewDimension {
    D1,
    D2,
    D2Array,
    Cube,
    CubeArray,
    D3,
}

/// The kind of sampler that a binding takes.
#[derive(Clone, Copy, Debug, PartialEq, Eq, Hash, Structural)]
pub enum SamplerBindingType {
    Filtering,
    NonFiltering,
    Comparison,
}

/// The kind of buffer that a binding takes.
#[derive(Clone, Copy, Debug, PartialEq, Eq, Hash, Structural)]
pub enum BufferBindingType {
    Uniform,
    Storage { read_only: bool },
}

/// What a binding of a layout takes.
#[derive(Clone, Copy, Debug, PartialEq, Eq, Hash, Structural)]
pub enum BindingType {
    Buffer { ty: BufferBindingType, has_dynamic_offset: bool, min_binding_size: Option<u64> },
    Sampler(SamplerBindingType),
    Texture {
        sample_type: TextureSampleType,
        view_dimension: TextureViewDimension,
        multisampled: bool,
    },
}

/// One binding of a layout.
#[derive(Clone, Copy, Debug, PartialEq, Eq, Hash, Structural)]
pub struct BindGroupLayoutEntry {
    pub binding: u32,
    pub visibility: ShaderStages,
    pub ty: BindingType,
    pub count: Option<u32>,
}

/// The description from which the device creates a bind group layout.
#[derive(Clone, Debug, PartialEq, Eq)]
pub struct BindGroupLayoutDescriptor {
    pub label: Option<String>,
    pub entries: Vec<BindGroupLayoutEntry>,
}

/// The mathematical content of a [`BindGroupLayoutDescriptor`].
pub struct BindGroupLayoutDescriptorView {
    pub label: Option<Seq<char>>,
    pub entries: Seq<BindGroupLayoutEntry>,
}

impl View for BindGroupLayoutDescriptor {
    type V = BindGroupLayoutDescriptorView;

    open spec fn view(&self) -> BindGroupLayoutDescriptorView {
        BindGroupLayoutDescriptorView {
            label: match self.label {
                Some(label) => Some(label@),
                None => None,
            },
            entries: self.entries@,
        }
    }
}

/// A range of a buffer. Without a size the range runs to the end of the
/// buffer.
#[derive(Clone, Copy, Debug, PartialEq, Eq, Hash, Structural)]
pub struct BufferBinding {
    pub buffer: BufferId,
    pub offset: u64,
    pub size: Option<u64>,
}

/// A resource that a bind group binds.
#[derive(Clone, Copy, Debug, PartialEq, Eq, Hash, Structural)]
pub enum BindingResource {
    Buffer(BufferBinding),
    Sampler(SamplerId),
    TextureView(TextureViewId),
}

/// A resource together with the binding it is bound to.
#[derive(Clone, Copy, Debug, PartialEq, Eq, Hash, Structural)]
pub struct BindGroupEntry {
    pub binding: u32,
    pub resource: BindingResource,
}

/// The entries of a bind group.
#[derive(Clone, Debug, PartialEq, Eq)]
pub struct BindGroupEntries {
    pub entries: Vec<BindGroupEntry>,
}

impl BindGroupEntries {
    /// The resources bound in their order: the first to binding 0, the next to
    /// binding 1, and so on.
    pub open spec fn spec_sequential(resources: Seq<BindingResource>) -> Seq<BindGroupEntry> {
        Seq::new(
            resources.len(),
            |i: int| BindGroupEntry { binding: i as u32, resource: resources[i] },
        )
    }

    /// Binds the resources in their order: the first to binding 0, the next to
    /// binding 1, and so on.
    pub fn sequential(resources: &Vec<BindingResource>) -> (bound: BindGroupEntries)
        requires
            resources@.len() <= u32::MAX,
        ensures
            bound.entries@ == Self::spec_sequential(resources@),
    {
        let n = resources.len();
        let mut entries: Vec<BindGroupEntry> = Vec::new();
        let mut i: usize = 0;
        while i < n
            invariant
                n == resources@.len(),
                n <= u32::MAX,
                i <= n,
                entries@ == Self::spec_sequential(resources@.subrange(0, i as int)),
            decreases n - i,
        {
            entries.push(BindGroupEntry { binding: i as u32, resource: resources[i] });
            proof {
                assert(entries@ =~= Self::spec_sequential(resources@.subrange(0, i + 1)));
            }
            i = i + 1;
        }
        proof {
            assert(resources@.subrange(0, n as int) =~= resources@);
        }
        BindGroupEntries { entries }
    }
}

/// The description from which the device creates a bind group.
#[derive(Clone, Debug, PartialEq, Eq)]
pub struct BindGroup {
    pub label: String,
    pub layout: BindGroupLayout,
    pub entries: Vec<BindGroupEntry>,
}

/// The mathematical content of a [`BindGroup`].
pub struct BindGroupView {
    pub label: Seq<char>,
    pub layout: BindGroupLayout,
    pub entries: Seq<BindGroupEntry>,
}

impl View for BindGroup {
    type V = BindGroupView;

    open spec fn view(&self) -> BindGroupView {
        BindGroupView { label: self.label@, layout: self.layout, entries: self.entries@ }
    }
}

/// An image that has been uploaded to the GPU.
#[derive(Clone, Copy, Debug, PartialEq, Eq, Hash, Structural)]
pub struct GpuImage {
    pub texture_view: TextureViewId,
    pub sampler: SamplerId,
}

/// The first image in the sequence that was uploaded for the handle.
pub open spec fn find_image(images: Seq<(ImageHandle, GpuImage)>, handle: ImageHandle) -> Option<
    GpuImage,
>
    decreases images.len(),
{
    if images.len() == 0 {
        None
    } else if images[0].0 == handle {
        Some(images[0].1)
    } else {
        find_image(images.subrange(1, images.len() as int), handle)
    }
}

/// The images that are on the GPU in this frame. An image that is still being
/// uploaded is not among them.
#[derive(Clone, Debug, PartialEq, Eq)]
pub struct RenderAssets {
    pub images: Vec<(ImageHandle, GpuImage)>,
}

impl RenderAssets {
    /// The uploaded image of the handle, as a specification.
    pub open spec fn spec_get(&self, handle: ImageHandle) -> Option<GpuImage> {
        find_image(self.images@, handle)
    }

    /// The uploaded image of the handle, or `None` while it is not on the GPU.
    pub fn get(&self, handle: ImageHandle) -> (image: Option<GpuImage>)
        ensures
            image == self.spec_get(handle),
    {
        let n = self.images.len();
        let mut i: usize = 0;
        proof {
            assert(self.images@.subrange(0, n as int) =~= self.images@);
        }
        while i < n
            invariant
                n == self.images@.len(),
                i <= n,
                find_image(self.images@, handle) == find_image(
                    self.images@.subrange(i as int, n as int),
                    handle,
                ),
            decreases n - i,
        {
            let ghost rest = self.images@.subrange(i as int, n as int);
            proof {
                assert(rest[0] == self.images@[i as int]);
                assert(rest.subrange(1, rest.len() as int) =~= self.images@.subrange(
                    i + 1,
                    n as int,
                ));
            }
            if self.images[i].0 == handle {
                return Some(self.images[i].1);
            }
            i = i + 1;
        }
        None
    }
}

/// A size in bytes, where zero stands for no size at all.
pub open spec fn spec_buffer_size(bytes: u64) -> Option<u64> {
    if bytes == 0 {
        None
    } else {
        Some(bytes)
    }
}

/// A size in bytes, where zero stands for no size at all.
pub fn buffer_size(bytes: u64) -> (size: Option<u64>)
    ensures
        size == spec_buffer_size(bytes),
{
    if bytes == 0 {
        None
    } else {
        Some(bytes)
    }
}

/// A uniform buffer that holds one element per view, each found by its
/// offset.
#[derive(Clone, Copy, Debug, PartialEq, Eq, Structural)]
pub struct DynamicUniformBuffer {
    /// The buffer on the GPU, once the elements of this frame were uploaded.
    pub buffer: Option<BufferId>,
    /// The size of one element, in bytes.
    pub element_size: u64,
}

impl DynamicUniformBuffer {
    /// The binding of one element, as a specification.
    pub open spec fn spec_binding(self) -> Option<BufferBinding> {
        match self.buffer {
            Some(buffer) => Some(
                BufferBinding { buffer, offset: 0, size: spec_buffer_size(self.element_size) },
            ),
            None => None,
        }
    }

    /// The binding of one element at the start of the buffer, or `None` while
    /// the elements of this frame have not been uploaded.
    pub fn binding(&self) -> (binding: Option<BufferBinding>)
        ensures
            binding == self.spec_binding(),
    {
        match self.buffer {
            Some(buffer) => Some(
                BufferBinding { buffer, offset: 0, size: buffer_size(self.element_size) },
            ),
            None => None,
        }
    }
}

/// The uniforms of all views of a frame.
#[derive(Clone, Copy, Debug, PartialEq, Eq, Structural)]
pub struct ViewUniforms {
    pub uniforms: DynamicUniformBuffer,
}

} // verus!

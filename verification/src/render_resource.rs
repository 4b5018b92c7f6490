//! Attachment operations and the identifiers of GPU-side objects.

use vstd::prelude::*;

verus! {

/// What happens to an attachment when a pass begins.
#[derive(Clone, Copy, Debug, PartialEq, Eq)]
pub enum LoadOp<V> {
    /// The attachment is overwritten with the value.
    Clear(V),
    /// The attachment keeps what an earlier pass left in it.
    Load,
}

/// The load and store policy of one attachment in one pass.
#[derive(Clone, Copy, Debug, PartialEq, Eq)]
pub struct Operations<V> {
    pub load: LoadOp<V>,
    /// Whether the results of the pass are written back to the attachment.
    pub store: bool,
}

impl<V> Operations<V> {
    /// Keep the earlier contents and write the results back.
    pub open spec fn spec_load_and_store() -> Operations<V> {
        Operations { load: LoadOp::Load, store: true }
    }

    /// Keep the earlier contents and write the results back.
    pub fn load_and_store() -> (ops: Operations<V>)
        ensures
            ops == Self::spec_load_and_store(),
    {
        Operations { load: LoadOp::Load, store: true }
    }
}

/// Names a texture view that lives on the GPU.
#[derive(Clone, Copy, Debug, PartialEq, Eq, Hash, Structural)]
pub struct TextureViewId(pub u64);

/// Names a sampler that lives on the GPU.
#[derive(Clone, Copy, Debug, PartialEq, Eq, Hash, Structural)]
pub struct SamplerId(pub u64);

/// Names a buffer that lives on the GPU.
#[derive(Clone, Copy, Debug, PartialEq, Eq, Hash, Structural)]
pub struct BufferId(pub u64);

/// The memory layout of a texture's texels.
#[derive(Clone, Copy, Debug, PartialEq, Eq, Hash, Structural)]
pub enum TextureFormat {
    Rgba8Unorm,
    Rgba8UnormSrgb,
    Bgra8Unorm,
    Bgra8UnormSrgb,
    Rgba16Float,
    Rgba32Float,
    Depth16Unorm,
    Depth24Plus,
    Depth24PlusStencil8,
    Depth32Float,
    Depth32FloatStencil8,
}

/// Names a shader by a number that never changes.
#[derive(Clone, Copy, Debug, PartialEq, Eq, Hash, Structural)]
pub struct ShaderHandle(pub u128);

/// Names an image asset.
#[derive(Clone, Copy, Debug, PartialEq, Eq, Hash, Structural)]
pub struct ImageHandle(pub u128);

/// A bind group layout that the device has created.
#[derive(Clone, Copy, Debug, PartialEq, Eq, Hash, Structural)]
pub struct BindGroupLayout {
    pub id: u64,
}

/// The color format of an extended-range render target.
pub const TEXTURE_FORMAT_HDR: TextureFormat = TextureFormat::Rgba16Float;

impl TextureFormat {
    /// The standard 8-bit color format of a render target.
    pub open spec fn spec_bevy_default() -> TextureFormat {
        TextureFormat::Rgba8UnormSrgb
    }

    /// The standard 8-bit color format of a render target.
    pub fn bevy_default() -> (format: TextureFormat)
        ensures
            format == Self::spec_bevy_default(),
    {
        TextureFormat::Rgba8UnormSrgb
    }
}

} // verus!

//! What is known of a view once it has been extracted for rendering.

use crate::render_resource::TextureViewId;
use vstd::prelude::*;

verus! {

/// The part of a render target that a camera draws to.
///
/// Position and size are in physical pixels. The two depth bounds hold the bit
/// patterns of IEEE 754 single-precision numbers.
#[derive(Clone, Copy, Debug, PartialEq, Eq, Structural)]
pub struct Viewport {
    pub x: u32,
    pub y: u32,
    pub width: u32,
    pub height: u32,
    pub min_depth: u32,
    pub max_depth: u32,
}

/// The camera of a view, as far as a pass needs it.
#[derive(Clone, Copy, Debug, PartialEq, Eq, Structural)]
pub struct ExtractedCamera {
    /// `None` means the whole target.
    pub viewport: Option<Viewport>,
}

/// The properties of a view that select pipeline variants.
#[derive(Clone, Copy, Debug, PartialEq, Eq, Structural)]
pub struct ExtractedView {
    /// Whether the view renders to an extended-range target.
    pub hdr: bool,
}

/// The color target of a view, created before any pass runs.
#[derive(Clone, Copy, Debug, PartialEq, Eq, Structural)]
pub struct ViewTarget {
    pub main_texture: TextureViewId,
}

/// The depth target of a view, created before any pass runs.
#[derive(Clone, Copy, Debug, PartialEq, Eq, Structural)]
pub struct ViewDepthTexture {
    pub view: TextureViewId,
}

/// The multisampling setting shared by all views.
#[derive(Clone, Copy, Debug, PartialEq, Eq, Structural)]
pub enum Msaa {
    Off,
    Sample2,
    Sample4,
    Sample8,
}

impl Msaa {
    /// The number of samples per pixel.
    pub open spec fn spec_samples(self) -> u32 {
        match self {
            Msaa::Off => 1,
            Msaa::Sample2 => 2,
            Msaa::Sample4 => 4,
            Msaa::Sample8 => 8,
        }
    }

    /// The number of samples per pixel.
    pub fn samples(&self) -> (count: u32)
        ensures
            count == self.spec_samples(),
    {
        match self {
            Msaa::Off => 1,
            Msaa::Sample2 => 2,
            Msaa::Sample4 => 4,
            Msaa::Sample8 => 8,
        }
    }
}

} // verus!

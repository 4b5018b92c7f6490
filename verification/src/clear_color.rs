//! The clear-color policy of a camera and the world-wide default it may refer to.

use crate::color::Color;
use crate::render_resource::LoadOp;
use vstd::prelude::*;

verus! {

/// The color a camera clears to when it asks for the default.
#[derive(Clone, Copy, Debug, PartialEq, Eq, Structural)]
pub struct ClearColor(pub Color);

/// What a camera does with the contents of its color target before drawing.
#[derive(Clone, Copy, Debug, PartialEq, Eq, Structural)]
pub enum ClearColorConfig {
    /// Clear to the world-wide [`ClearColor`].
    Default,
    /// Clear to the given color.
    Custom(Color),
    /// Keep what the target already holds.
    NoClear,
}

impl ClearColorConfig {
    /// The load operation this policy asks for, given the world-wide default.
    pub open spec fn spec_load_op(self, default: ClearColor) -> LoadOp<Color> {
        match self {
            ClearColorConfig::Default => LoadOp::Clear(default.0),
            ClearColorConfig::Custom(color) => LoadOp::Clear(color),
            ClearColorConfig::NoClear => LoadOp::Load,
        }
    }

    /// The load operation this policy asks for, given the world-wide default.
    pub fn load_op(&self, default: &ClearColor) -> (op: LoadOp<Color>)
        ensures
            op == self.spec_load_op(*default),
    {
        match self {
            ClearColorConfig::Default => LoadOp::Clear(default.0),
            ClearColorConfig::Custom(color) => LoadOp::Clear(*color),
            ClearColorConfig::NoClear => LoadOp::Load,
        }
    }
}

} // verus!

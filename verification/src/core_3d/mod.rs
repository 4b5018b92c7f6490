//! The 3D core pipeline: the per-view state of a 3D camera and the node that
//! issues its main passes.

pub mod main_pass_3d_node;

use crate::clear_color::{ClearColor, ClearColorConfig};
use crate::entity::Entity;
use crate::render_phase::{back_to_front, front_to_back, RenderPhase};
use crate::render_resource::{LoadOp, TextureFormat};
use crate::view::{ExtractedCamera, ViewDepthTexture, ViewTarget};
use vstd::prelude::*;

verus! {

/// The format of the depth target of every 3D view.
pub const CORE_3D_DEPTH_FORMAT: TextureFormat = TextureFormat::Depth32Float;

/// What a 3D camera does with its depth target before the opaque pass.
///
/// Depth is reversed: the far plane is at zero and the near plane at one, so
/// a depth target is cleared to zero. The value given to `Clear` holds the bit
/// pattern of an IEEE 754 single-precision number.
#[derive(Clone, Copy, Debug, PartialEq, Eq, Structural)]
pub enum Camera3dDepthLoadOp {
    /// Clear to the given depth.
    Clear(u32),
    /// Keep what the target already holds.
    Load,
}

impl Camera3dDepthLoadOp {
    /// The load operation this policy asks for.
    pub open spec fn spec_load_op(self) -> LoadOp<u32> {
        match self {
            Camera3dDepthLoadOp::Clear(depth) => LoadOp::Clear(depth),
            Camera3dDepthLoadOp::Load => LoadOp::Load,
        }
    }

    /// The load operation this policy asks for.
    pub fn load_op(&self) -> (op: LoadOp<u32>)
        ensures
            op == self.spec_load_op(),
    {
        match self {
            Camera3dDepthLoadOp::Clear(depth) => LoadOp::Clear(*depth),
            Camera3dDepthLoadOp::Load => LoadOp::Load,
        }
    }
}

impl Default for Camera3dDepthLoadOp {
    /// Clears to the far plane, which is zero.
    fn default() -> (op: Camera3dDepthLoadOp)
        ensures
            op == Camera3dDepthLoadOp::Clear(0),
    {
        Camera3dDepthLoadOp::Clear(0)
    }
}

/// The settings of a 3D camera that the main pass reads.
#[derive(Clone, Copy, Debug, PartialEq, Eq, Structural)]
pub struct Camera3d {
    pub clear_color: ClearColorConfig,
    pub depth_load_op: Camera3dDepthLoadOp,
}

/// Everything the main pass needs to know of one view: its camera, its three
/// phases and its targets.
#[derive(Clone, Debug, PartialEq, Eq)]
pub struct ViewState {
    pub entity: Entity,
    pub camera: ExtractedCamera,
    pub opaque_phase: RenderPhase,
    pub alpha_mask_phase: RenderPhase,
    pub transparent_phase: RenderPhase,
    pub camera_3d: Camera3d,
    pub target: ViewTarget,
    pub depth: ViewDepthTexture,
}

impl ViewState {
    /// Whether each phase is in the order that its technique asks for: the
    /// opaque and the alpha-mask phase front to back, the transparent phase
    /// back to front.
    pub open spec fn phases_in_order(self) -> bool {
        &&& front_to_back(self.opaque_phase.items@)
        &&& front_to_back(self.alpha_mask_phase.items@)
        &&& back_to_front(self.transparent_phase.items@)
    }
}

/// The state of the first view in the sequence that belongs to the entity.
pub open spec fn find_view(views: Seq<ViewState>, entity: Entity) -> Option<ViewState>
    decreases views.len(),
{
    if views.len() == 0 {
        None
    } else if views[0].entity == entity {
        Some(views[0])
    } else {
        find_view(views.subrange(1, views.len() as int), entity)
    }
}

/// The render world of one frame: the default clear color and a table of the
/// views that can be rendered, built anew for each frame.
#[derive(Clone, Debug, PartialEq, Eq)]
pub struct World {
    pub clear_color: ClearColor,
    pub views: Vec<ViewState>,
}

impl World {
    /// The state of the view that belongs to the entity, as a specification.
    pub open spec fn spec_view(&self, entity: Entity) -> Option<ViewState> {
        find_view(self.views@, entity)
    }

    /// The state of the view that belongs to the entity, or `None` where the
    /// entity is no view that can be rendered in this frame.
    pub fn get_view(&self, entity: Entity) -> (found: Option<&ViewState>)
        ensures
            match self.spec_view(entity) {
                Some(view) => found == Some(&view),
                None => found is None,
            },
    {
        let n = self.views.len();
        let mut i: usize = 0;
        proof {
            assert(self.views@.subrange(0, n as int) =~= self.views@);
        }
        while i < n
            invariant
                n == self.views@.len(),
                i <= n,
                find_view(self.views@, entity) == find_view(
                    self.views@.subrange(i as int, n as int),
                    entity,
                ),
            decreases n - i,
        {
            let ghost rest = self.views@.subrange(i as int, n as int);
            proof {
                assert(rest[0] == self.views@[i as int]);
                assert(rest.subrange(1, rest.len() as int) =~= self.views@.subrange(
                    i + 1,
                    n as int,
                ));
            }
            if self.views[i].entity == entity {
                return Some(&self.views[i]);
            }
            i = i + 1;
        }
        None
    }
}

} // verus!

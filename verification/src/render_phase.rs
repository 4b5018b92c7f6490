//! Draw items grouped into phases, and the record of the passes that draw them.

use crate::color::Color;
use crate::entity::Entity;
use crate::render_resource::Operations;
use crate::view::{ViewDepthTexture, ViewTarget, Viewport};
use vstd::prelude::*;

verus! {

/// Names the function that draws an item.
#[derive(Clone, Copy, Debug, PartialEq, Eq, Hash, Structural)]
pub struct DrawFunctionId(pub u32);

/// One thing to draw: an entity, the function that draws it, and how far it
/// is from the camera.
///
/// Of the distance only the order counts: of two items, the one with the
/// larger number is the one farther away.
#[derive(Clone, Copy, Debug, PartialEq, Eq, Structural)]
pub struct PhaseItem {
    pub entity: Entity,
    pub draw_function: DrawFunctionId,
    pub distance: u32,
}

/// Whether no item comes before one that is nearer to the camera.
pub open spec fn front_to_back(items: Seq<PhaseItem>) -> bool {
    forall|i: int, j: int| 0 <= i <= j < items.len() ==> items[i].distance <= items[j].distance
}

/// Whether no item comes before one that is farther from the camera.
pub open spec fn back_to_front(items: Seq<PhaseItem>) -> bool {
    forall|i: int, j: int| 0 <= i <= j < items.len() ==> items[i].distance >= items[j].distance
}

/// The draw items of one rendering technique for one view, in the order in
/// which they are to be drawn.
///
/// Whoever fills a phase sorts it: opaque and alpha-mask phases front to
/// back, the transparent phase back to front, as blending needs it. A pass
/// draws the items in the order it finds them.
#[derive(Clone, Debug, PartialEq, Eq)]
pub struct RenderPhase {
    pub items: Vec<PhaseItem>,
}

/// Which of the passes of the 3D main pass a record stands for.
#[derive(Clone, Copy, Debug, PartialEq, Eq, Structural)]
pub enum PassLabel {
    MainOpaquePass3d,
    MainAlphaMaskPass3d,
    MainTransparentPass3d,
    ResetViewportPass3d,
}

impl PassLabel {
    /// The label under which the pass is known to the GPU's debugging tools.
    pub open spec fn spec_name(self) -> Seq<char> {
        match self {
            PassLabel::MainOpaquePass3d => "main_opaque_pass_3d"@,
            PassLabel::MainAlphaMaskPass3d => "main_alpha_mask_pass_3d"@,
            PassLabel::MainTransparentPass3d => "main_transparent_pass_3d"@,
            PassLabel::ResetViewportPass3d => "reset_viewport_pass_3d"@,
        }
    }

    /// The label under which the pass is known to the GPU's debugging tools.
    pub fn name(&self) -> (name: &'static str)
        ensures
            name@ == self.spec_name(),
    {
        match self {
            PassLabel::MainOpaquePass3d => "main_opaque_pass_3d",
            PassLabel::MainAlphaMaskPass3d => "main_alpha_mask_pass_3d",
            PassLabel::MainTransparentPass3d => "main_transparent_pass_3d",
            PassLabel::ResetViewportPass3d => "reset_viewport_pass_3d",
        }
    }
}

/// One render pass: its attachments with their load and store policy, the
/// viewport, and the items drawn in it, in order.
///
/// A depth clear value holds the bit pattern of an IEEE 754 single-precision
/// number.
#[derive(Clone, Debug, PartialEq, Eq)]
pub struct TrackedRenderPass {
    pub label: PassLabel,
    pub view_entity: Entity,
    pub target: ViewTarget,
    pub color_ops: Operations<Color>,
    pub depth: Option<ViewDepthTexture>,
    pub depth_ops: Option<Operations<u32>>,
    /// `None` means the whole target.
    pub viewport: Option<Viewport>,
    pub draws: Vec<PhaseItem>,
}

/// The mathematical content of a [`TrackedRenderPass`].
pub struct TrackedRenderPassView {
    pub label: PassLabel,
    pub view_entity: Entity,
    pub target: ViewTarget,
    pub color_ops: Operations<Color>,
    pub depth: Option<ViewDepthTexture>,
    pub depth_ops: Option<Operations<u32>>,
    pub viewport: Option<Viewport>,
    pub draws: Seq<PhaseItem>,
}

impl View for TrackedRenderPass {
    type V = TrackedRenderPassView;

    open spec fn view(&self) -> TrackedRenderPassView {
        TrackedRenderPassView {
            label: self.label,
            view_entity: self.view_entity,
            target: self.target,
            color_ops: self.color_ops,
            depth: self.depth,
            depth_ops: self.depth_ops,
            viewport: self.viewport,
            draws: self.draws@,
        }
    }
}

impl TrackedRenderPassView {
    /// A pass for a camera in which nothing has been drawn yet.
    pub open spec fn for_camera(
        label: PassLabel,
        view_entity: Entity,
        target: ViewTarget,
        color_ops: Operations<Color>,
        depth: Option<ViewDepthTexture>,
        depth_ops: Option<Operations<u32>>,
        viewport: Option<Viewport>,
    ) -> TrackedRenderPassView {
        TrackedRenderPassView {
            label,
            view_entity,
            target,
            color_ops,
            depth,
            depth_ops,
            viewport,
            draws: Seq::empty(),
        }
    }

    /// The same pass after the items of a phase have been drawn in it.
    pub open spec fn with_phase(self, items: Seq<PhaseItem>) -> TrackedRenderPassView {
        TrackedRenderPassView { draws: self.draws + items, ..self }
    }
}

impl TrackedRenderPass {
    /// Begins a pass for a camera: the given attachments and operations, the
    /// camera's viewport, and no draws yet.
    pub fn create_for_camera(
        label: PassLabel,
        view_entity: Entity,
        target: &ViewTarget,
        color_ops: Operations<Color>,
        depth: Option<&ViewDepthTexture>,
        depth_ops: Option<Operations<u32>>,
        viewport: &Option<Viewport>,
    ) -> (pass: TrackedRenderPass)
        ensures
            pass@ == TrackedRenderPassView::for_camera(
                label,
                view_entity,
                *target,
                color_ops,
                match depth {
                    Some(d) => Some(*d),
                    None => None,
                },
                depth_ops,
                *viewport,
            ),
    {
        let depth = match depth {
            Some(d) => Some(*d),
            None => None,
        };
        TrackedRenderPass {
            label,
            view_entity,
            target: *target,
            color_ops,
            depth,
            depth_ops,
            viewport: *viewport,
            draws: Vec::new(),
        }
    }

    /// Draws every item of the phase, in the phase's order, after what the
    /// pass has drawn so far.
    pub fn render_phase(&mut self, phase: &RenderPhase)
        ensures
            final(self)@ == old(self)@.with_phase(phase.items@),
    {
        let n = phase.items.len();
        let mut i: usize = 0;
        while i < n
            invariant
                n == phase.items@.len(),
                i <= n,
                self@ == old(self)@.with_phase(phase.items@.subrange(0, i as int)),
            decreases n - i,
        {
            self.draws.push(phase.items[i]);
            proof {
                assert(phase.items@.subrange(0, i as int).push(phase.items@[i as int])
                    =~= phase.items@.subrange(0, i + 1));
                assert(self.draws@ =~= old(self).draws@ + phase.items@.subrange(0, i + 1));
            }
            i = i + 1;
        }
        proof {
            assert(phase.items@.subrange(0, n as int) =~= phase.items@);
        }
    }
}

/// Collects the passes of a frame in the order in which they were issued.
#[derive(Clone, Debug, PartialEq, Eq)]
pub struct RenderContext {
    pub passes: Vec<TrackedRenderPass>,
}

impl View for RenderContext {
    type V = Seq<TrackedRenderPassView>;

    open spec fn view(&self) -> Seq<TrackedRenderPassView> {
        self.passes@.map_values(|pass: TrackedRenderPass| pass@)
    }
}

impl RenderContext {
    /// A context in which no pass has been issued.
    pub fn new() -> (context: RenderContext)
        ensures
            context@ == Seq::<TrackedRenderPassView>::empty(),
    {
        let context = RenderContext { passes: Vec::new() };
        proof {
            assert(context@ =~= Seq::<TrackedRenderPassView>::empty());
        }
        context
    }

    /// Ends the pass and records it after the passes issued so far.
    pub fn submit(&mut self, pass: TrackedRenderPass)
        ensures
            final(self)@ == old(self)@.push(pass@),
    {
        self.passes.push(pass);
        proof {
            assert(self@ =~= old(self)@.push(pass@));
        }
    }
}

} // verus!

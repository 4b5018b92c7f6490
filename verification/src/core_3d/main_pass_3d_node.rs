//! The node that issues the main passes of a 3D view.

use crate::clear_color::{ClearColor, ClearColorConfig};
use crate::color::Color;
use crate::core_3d::{ViewState, World};
use crate::entity::Entity;
use crate::render_graph::{NodeRunError, RenderGraphContext, SlotInfo, SlotType};
use crate::render_phase::{
    back_to_front, front_to_back, PassLabel, RenderContext, TrackedRenderPass,
    TrackedRenderPassView,
};
use crate::render_resource::{LoadOp, Operations};
use vstd::prelude::*;

verus! {

/// The opaque pass of a view: the color target is cleared or kept as the
/// camera asks, the depth target likewise, both are written back, and the
/// opaque items are drawn.
pub open spec fn opaque_pass(
    entity: Entity,
    view: ViewState,
    clear_color: ClearColor,
) -> TrackedRenderPassView {
    TrackedRenderPassView::for_camera(
        PassLabel::MainOpaquePass3d,
        entity,
        view.target,
        Operations { load: view.camera_3d.clear_color.spec_load_op(clear_color), store: true },
        Some(view.depth),
        Some(Operations { load: view.camera_3d.depth_load_op.spec_load_op(), store: true }),
        view.camera.viewport,
    ).with_phase(view.opaque_phase.items@)
}

/// The alpha-mask pass of a view: both targets carry over from the opaque
/// pass and are written back, and the alpha-mask items are drawn.
pub open spec fn alpha_mask_pass(entity: Entity, view: ViewState) -> TrackedRenderPassView {
    TrackedRenderPassView::for_camera(
        PassLabel::MainAlphaMaskPass3d,
        entity,
        view.target,
        Operations::<Color>::spec_load_and_store(),
        Some(view.depth),
        Some(Operations::<u32>::spec_load_and_store()),
        view.camera.viewport,
    ).with_phase(view.alpha_mask_phase.items@)
}

/// The transparent pass of a view: both targets carry over and are written
/// back, and the transparent items are drawn.
pub open spec fn transparent_pass(entity: Entity, view: ViewState) -> TrackedRenderPassView {
    TrackedRenderPassView::for_camera(
        PassLabel::MainTransparentPass3d,
        entity,
        view.target,
        Operations::<Color>::spec_load_and_store(),
        Some(view.depth),
        Some(Operations::<u32>::spec_load_and_store()),
        view.camera.viewport,
    ).with_phase(view.transparent_phase.items@)
}

/// The pass that only puts the viewport back to the whole target: no depth
/// target, no viewport, nothing drawn.
pub open spec fn reset_viewport_pass(entity: Entity, view: ViewState) -> TrackedRenderPassView {
    TrackedRenderPassView::for_camera(
        PassLabel::ResetViewportPass3d,
        entity,
        view.target,
        Operations::<Color>::spec_load_and_store(),
        None,
        None,
        None,
    )
}

/// The passes of one view, in the order in which they are issued: the opaque
/// pass always, the alpha-mask and the transparent pass where their phase
/// holds an item, and the viewport reset where the node was asked for it and
/// the camera has a viewport of its own.
pub open spec fn main_passes(
    reset_viewport: bool,
    entity: Entity,
    view: ViewState,
    clear_color: ClearColor,
) -> Seq<TrackedRenderPassView> {
    seq![opaque_pass(entity, view, clear_color)] + (if view.alpha_mask_phase.items@.len() > 0 {
        seq![alpha_mask_pass(entity, view)]
    } else {
        Seq::empty()
    }) + (if view.transparent_phase.items@.len() > 0 {
        seq![transparent_pass(entity, view)]
    } else {
        Seq::empty()
    }) + (if reset_viewport && view.camera.viewport is Some {
        seq![reset_viewport_pass(entity, view)]
    } else {
        Seq::empty()
    })
}

/// The passes that one run of the node issues: none where the view input is
/// missing or names an entity that is no view of this frame, the main passes
/// of the view otherwise.
pub open spec fn issued_passes(
    reset_viewport: bool,
    view_input: Option<Entity>,
    world: World,
) -> Seq<TrackedRenderPassView> {
    match view_input {
        None => Seq::empty(),
        Some(entity) => match world.spec_view(entity) {
            None => Seq::empty(),
            Some(view) => main_passes(reset_viewport, entity, view, world.clear_color),
        },
    }
}

/// Issues the opaque, alpha-mask and transparent pass of a 3D view.
#[derive(Clone, Copy, Debug, PartialEq, Eq, Structural)]
pub struct MainPass3dNode {
    /// Whether the platform keeps a camera's viewport after its last pass, so
    /// that a pass without a viewport has to follow.
    pub reset_viewport: bool,
}

impl MainPass3dNode {
    /// The name of the input slot that carries the view entity.
    pub const IN_VIEW: &'static str = "view";

    /// A node for a platform that does, or does not, need the viewport reset.
    pub fn new(reset_viewport: bool) -> (node: MainPass3dNode)
        ensures
            node.reset_viewport == reset_viewport,
    {
        MainPass3dNode { reset_viewport }
    }

    /// The input slots of the node: one, which carries the view entity.
    pub fn input(&self) -> (slots: Vec<SlotInfo>)
        ensures
            slots@.len() == 1,
            slots@[0].name@ == Self::IN_VIEW@,
            slots@[0].slot_type == SlotType::Entity,
    {
        let mut slots = Vec::new();
        slots.push(SlotInfo { name: Self::IN_VIEW.to_string(), slot_type: SlotType::Entity });
        slots
    }

    /// Runs the node for the view that the graph names.
    ///
    /// Fails, and issues nothing, exactly when the view input is missing. A
    /// view entity without state in this frame is no error: nothing is issued.
    /// Otherwise the main passes of the view are issued after those already
    /// in the context.
    pub fn run(
        &self,
        graph: &RenderGraphContext,
        render_context: &mut RenderContext,
        world: &World,
    ) -> (result: Result<(), NodeRunError>)
        ensures
            result == (match graph.spec_input_entity(Self::IN_VIEW@) {
                Some(_) => Ok::<(), NodeRunError>(()),
                None => Err::<(), NodeRunError>(NodeRunError::MissingGraphInput),
            }),
            final(render_context)@ == old(render_context)@ + issued_passes(
                self.reset_viewport,
                graph.spec_input_entity(Self::IN_VIEW@),
                *world,
            ),
    {
        let view_entity = match graph.get_input_entity(Self::IN_VIEW) {
            Ok(entity) => entity,
            Err(error) => {
                proof {
                    assert(render_context@ + Seq::<TrackedRenderPassView>::empty()
                        =~= render_context@);
                }
                return Err(error);
            },
        };
        let view = match world.get_view(view_entity) {
            Some(view) => view,
            None => {
                proof {
                    assert(render_context@ + Seq::<TrackedRenderPassView>::empty()
                        =~= render_context@);
                }
                return Ok(());
            },
        };
        let ghost before = render_context@;

        // The opaque pass always runs: its color load operation is what
        // clears the screen.
        {
            let color_ops = Operations {
                load: view.camera_3d.clear_color.load_op(&world.clear_color),
                store: true,
            };
            let depth_ops = Some(
                Operations { load: view.camera_3d.depth_load_op.load_op(), store: true },
            );
            let mut render_pass = TrackedRenderPass::create_for_camera(
                PassLabel::MainOpaquePass3d,
                view_entity,
                &view.target,
                color_ops,
                Some(&view.depth),
                depth_ops,
                &view.camera.viewport,
            );
            render_pass.render_phase(&view.opaque_phase);
            render_context.submit(render_pass);
        }

        if !view.alpha_mask_phase.items.is_empty() {
            let mut render_pass = TrackedRenderPass::create_for_camera(
                PassLabel::MainAlphaMaskPass3d,
                view_entity,
                &view.target,
                Operations::load_and_store(),
                Some(&view.depth),
                Some(Operations::load_and_store()),
                &view.camera.viewport,
            );
            render_pass.render_phase(&view.alpha_mask_phase);
            render_context.submit(render_pass);
        }

        if !view.transparent_phase.items.is_empty() {
            // The depth target is read, so that earlier geometry hides what
            // lies behind it. It is stored all the same: some platforms
            // lose the depth target when a pass does not store it.
            let mut render_pass = TrackedRenderPass::create_for_camera(
                PassLabel::MainTransparentPass3d,
                view_entity,
                &view.target,
                Operations::load_and_store(),
                Some(&view.depth),
                Some(Operations::load_and_store()),
                &view.camera.viewport,
            );
            render_pass.render_phase(&view.transparent_phase);
            render_context.submit(render_pass);
        }

        if self.reset_viewport && view.camera.viewport.is_some() {
            let render_pass = TrackedRenderPass::create_for_camera(
                PassLabel::ResetViewportPass3d,
                view_entity,
                &view.target,
                Operations::load_and_store(),
                None,
                None,
                &None,
            );
            render_context.submit(render_pass);
        }

        proof {
            assert(render_context@ =~= before + main_passes(
                self.reset_viewport,
                view_entity,
                *view,
                world.clear_color,
            ));
        }
        Ok(())
    }
}

/// The place of a pass in the order of a view's passes.
pub open spec fn pass_rank(label: PassLabel) -> int {
    match label {
        PassLabel::MainOpaquePass3d => 0,
        PassLabel::MainAlphaMaskPass3d => 1,
        PassLabel::MainTransparentPass3d => 2,
        PassLabel::ResetViewportPass3d => 3,
    }
}

/// The opaque pass is issued for every view, whatever its phases hold, and it
/// comes first. Its color target is cleared to the camera's own color, cleared
/// to the world's default, or kept, as the camera's policy says; its depth
/// target follows the camera's depth policy; both are written back.
pub proof fn lemma_opaque_pass_always_issued(
    reset_viewport: bool,
    entity: Entity,
    view: ViewState,
    clear_color: ClearColor,
)
    ensures
        main_passes(reset_viewport, entity, view, clear_color).len() >= 1,
        main_passes(reset_viewport, entity, view, clear_color)[0] == opaque_pass(
            entity,
            view,
            clear_color,
        ),
        opaque_pass(entity, view, clear_color).label == PassLabel::MainOpaquePass3d,
        opaque_pass(entity, view, clear_color).color_ops.store,
        opaque_pass(entity, view, clear_color).color_ops.load == (match view.camera_3d.clear_color {
            ClearColorConfig::Default => LoadOp::Clear(clear_color.0),
            ClearColorConfig::Custom(color) => LoadOp::Clear(color),
            ClearColorConfig::NoClear => LoadOp::Load,
        }),
        opaque_pass(entity, view, clear_color).depth_ops == Some(
            Operations { load: view.camera_3d.depth_load_op.spec_load_op(), store: true },
        ),
        opaque_pass(entity, view, clear_color).draws == view.opaque_phase.items@,
{
    assert(opaque_pass(entity, view, clear_color).draws =~= view.opaque_phase.items@);
}

/// A phase without items gets no pass: where the alpha-mask phase is empty no
/// alpha-mask pass is among the passes of the view, and likewise for the
/// transparent phase. Where both are empty and no viewport reset is asked for,
/// the opaque pass is all there is.
pub proof fn lemma_empty_phase_issues_no_pass(
    reset_viewport: bool,
    entity: Entity,
    view: ViewState,
    clear_color: ClearColor,
)
    ensures
        view.alpha_mask_phase.items@.len() == 0 ==> forall|i: int|
            0 <= i < main_passes(reset_viewport, entity, view, clear_color).len()
                ==> (#[trigger] main_passes(reset_viewport, entity, view, clear_color)[i]).label
                != PassLabel::MainAlphaMaskPass3d,
        view.transparent_phase.items@.len() == 0 ==> forall|i: int|
            0 <= i < main_passes(reset_viewport, entity, view, clear_color).len()
                ==> (#[trigger] main_passes(reset_viewport, entity, view, clear_color)[i]).label
                != PassLabel::MainTransparentPass3d,
        view.alpha_mask_phase.items@.len() == 0 && view.transparent_phase.items@.len() == 0 && !(
        reset_viewport && view.camera.viewport is Some) ==> main_passes(
            reset_viewport,
            entity,
            view,
            clear_color,
        ) == seq![opaque_pass(entity, view, clear_color)],
{
    let passes = main_passes(reset_viewport, entity, view, clear_color);
    if view.alpha_mask_phase.items@.len() == 0 && view.transparent_phase.items@.len() == 0 && !(
    reset_viewport && view.camera.viewport is Some) {
        assert(passes =~= seq![opaque_pass(entity, view, clear_color)]);
    }
}

/// The passes of a view come in a strict order: opaque, then alpha mask, then
/// transparent, then the viewport reset. No pass is issued twice.
pub proof fn lemma_passes_in_order(
    reset_viewport: bool,
    entity: Entity,
    view: ViewState,
    clear_color: ClearColor,
    i: int,
    j: int,
)
    requires
        0 <= i < j < main_passes(reset_viewport, entity, view, clear_color).len(),
    ensures
        pass_rank(main_passes(reset_viewport, entity, view, clear_color)[i].label) < pass_rank(
            main_passes(reset_viewport, entity, view, clear_color)[j].label,
        ),
{
}

/// Every pass writes both of its targets back, and every pass after the
/// opaque one keeps what the earlier passes left in them: only the opaque
/// pass may clear.
pub proof fn lemma_later_passes_load(
    reset_viewport: bool,
    entity: Entity,
    view: ViewState,
    clear_color: ClearColor,
    i: int,
)
    requires
        0 <= i < main_passes(reset_viewport, entity, view, clear_color).len(),
    ensures
        main_passes(reset_viewport, entity, view, clear_color)[i].color_ops.store,
        main_passes(reset_viewport, entity, view, clear_color)[i].depth_ops matches Some(ops)
            ==> ops.store,
        i >= 1 ==> main_passes(reset_viewport, entity, view, clear_color)[i].color_ops.load
            == LoadOp::<Color>::Load,
        i >= 1 ==> (main_passes(reset_viewport, entity, view, clear_color)[i].depth_ops matches Some(
            ops,
        ) ==> ops.load == LoadOp::<u32>::Load),
{
}

/// Every pass of a view draws the items of its own phase, all of them and in
/// the phase's order, and the viewport reset draws nothing.
pub proof fn lemma_pass_draws_its_phase(
    reset_viewport: bool,
    entity: Entity,
    view: ViewState,
    clear_color: ClearColor,
    i: int,
)
    requires
        0 <= i < main_passes(reset_viewport, entity, view, clear_color).len(),
    ensures
        main_passes(reset_viewport, entity, view, clear_color)[i].draws == (match main_passes(
            reset_viewport,
            entity,
            view,
            clear_color,
        )[i].label {
            PassLabel::MainOpaquePass3d => view.opaque_phase.items@,
            PassLabel::MainAlphaMaskPass3d => view.alpha_mask_phase.items@,
            PassLabel::MainTransparentPass3d => view.transparent_phase.items@,
            PassLabel::ResetViewportPass3d => Seq::empty(),
        }),
{
    assert(opaque_pass(entity, view, clear_color).draws =~= view.opaque_phase.items@);
    assert(alpha_mask_pass(entity, view).draws =~= view.alpha_mask_phase.items@);
    assert(transparent_pass(entity, view).draws =~= view.transparent_phase.items@);
}

/// Where the phases of a view are in their order, every pass draws in it:
/// the opaque and the alpha-mask pass front to back, the transparent pass
/// back to front.
pub proof fn lemma_draws_in_phase_order(
    reset_viewport: bool,
    entity: Entity,
    view: ViewState,
    clear_color: ClearColor,
    i: int,
)
    requires
        view.phases_in_order(),
        0 <= i < main_passes(reset_viewport, entity, view, clear_color).len(),
    ensures
        match main_passes(reset_viewport, entity, view, clear_color)[i].label {
            PassLabel::MainOpaquePass3d => front_to_back(
                main_passes(reset_viewport, entity, view, clear_color)[i].draws,
            ),
            PassLabel::MainAlphaMaskPass3d => front_to_back(
                main_passes(reset_viewport, entity, view, clear_color)[i].draws,
            ),
            PassLabel::MainTransparentPass3d => back_to_front(
                main_passes(reset_viewport, entity, view, clear_color)[i].draws,
            ),
            PassLabel::ResetViewportPass3d => main_passes(
                reset_viewport,
                entity,
                view,
                clear_color,
            )[i].draws.len() == 0,
        },
{
    lemma_pass_draws_its_phase(reset_viewport, entity, view, clear_color, i);
}

} // verus!

use core_pipeline::clear_color::{ClearColor, ClearColorConfig};
use core_pipeline::color::Color;
use core_pipeline::core_3d::main_pass_3d_node::MainPass3dNode;
use core_pipeline::core_3d::{Camera3d, Camera3dDepthLoadOp, ViewState, World};
use core_pipeline::entity::Entity;
use core_pipeline::render_graph::{
    NodeRunError, RenderGraphContext, SlotInfo, SlotInput, SlotType, SlotValue,
};
use core_pipeline::render_phase::{
    DrawFunctionId, PassLabel, PhaseItem, RenderContext, RenderPhase, TrackedRenderPass,
};
use core_pipeline::render_resource::{BufferId, LoadOp, Operations, TextureViewId};
use core_pipeline::view::{ExtractedCamera, Msaa, ViewDepthTexture, ViewTarget, Viewport};

const BLACK: Color = Color { red: 0, green: 0, blue: 0, alpha: 0x3f80_0000 };
const RED: Color = Color { red: 0x3f80_0000, green: 0, blue: 0, alpha: 0x3f80_0000 };

fn item(index: u32) -> PhaseItem {
    PhaseItem {
        entity: Entity::from_raw(index),
        draw_function: DrawFunctionId(index + 100),
        distance: index * 10,
    }
}

fn phase(indices: &[u32]) -> RenderPhase {
    RenderPhase { items: indices.iter().map(|index| item(*index)).collect() }
}

fn view(entity: u32, opaque: &[u32], alpha_mask: &[u32], transparent: &[u32]) -> ViewState {
    ViewState {
        entity: Entity::from_raw(entity),
        camera: ExtractedCamera { viewport: None },
        opaque_phase: phase(opaque),
        alpha_mask_phase: phase(alpha_mask),
        transparent_phase: phase(transparent),
        camera_3d: Camera3d {
            clear_color: ClearColorConfig::Default,
            depth_load_op: Camera3dDepthLoadOp::Clear(0),
        },
        target: ViewTarget { main_texture: TextureViewId(10 + entity as u64) },
        depth: ViewDepthTexture { view: TextureViewId(20 + entity as u64) },
    }
}

fn world(views: Vec<ViewState>) -> World {
    World { clear_color: ClearColor(BLACK), views }
}

fn graph_for(entity: u32) -> RenderGraphContext {
    RenderGraphContext {
        inputs: vec![SlotInput {
            name: MainPass3dNode::IN_VIEW.to_string(),
            value: SlotValue::Entity(Entity::from_raw(entity)),
        }],
    }
}

fn run(node: MainPass3dNode, graph: &RenderGraphContext, world: &World) -> Vec<TrackedRenderPass> {
    let mut context = RenderContext::new();
    assert_eq!(node.run(graph, &mut context, world), Ok(()));
    context.passes
}

const LOAD_COLOR: Operations<Color> = Operations { load: LoadOp::Load, store: true };
const LOAD_DEPTH: Operations<u32> = Operations { load: LoadOp::Load, store: true };

#[test]
fn opaque_pass_runs_for_empty_phases_and_clears_to_the_default() {
    let world = world(vec![view(1, &[], &[], &[])]);
    let passes = run(MainPass3dNode::new(false), &graph_for(1), &world);
    assert_eq!(
        passes,
        vec![TrackedRenderPass {
            label: PassLabel::MainOpaquePass3d,
            view_entity: Entity::from_raw(1),
            target: ViewTarget { main_texture: TextureViewId(11) },
            color_ops: Operations { load: LoadOp::Clear(BLACK), store: true },
            depth: Some(ViewDepthTexture { view: TextureViewId(21) }),
            depth_ops: Some(Operations { load: LoadOp::Clear(0), store: true }),
            viewport: None,
            draws: vec![],
        }]
    );
}

#[test]
fn opaque_pass_clears_to_the_custom_color() {
    let mut state = view(1, &[], &[], &[]);
    state.camera_3d.clear_color = ClearColorConfig::Custom(RED);
    let passes = run(MainPass3dNode::new(false), &graph_for(1), &world(vec![state]));
    assert_eq!(passes.len(), 1);
    assert_eq!(passes[0].color_ops, Operations { load: LoadOp::Clear(RED), store: true });
}

#[test]
fn opaque_pass_loads_when_the_camera_does_not_clear() {
    let mut state = view(1, &[], &[], &[]);
    state.camera_3d.clear_color = ClearColorConfig::NoClear;
    let passes = run(MainPass3dNode::new(false), &graph_for(1), &world(vec![state]));
    assert_eq!(passes.len(), 1);
    assert_eq!(passes[0].label, PassLabel::MainOpaquePass3d);
    assert_eq!(passes[0].color_ops.load, LoadOp::Load);
    assert_ne!(passes[0].color_ops.load, LoadOp::Clear(BLACK));
    assert!(passes[0].color_ops.store);
    assert!(passes[0].draws.is_empty());
}

#[test]
fn opaque_pass_follows_the_depth_policy() {
    let mut cleared = view(1, &[], &[], &[]);
    cleared.camera_3d.depth_load_op = Camera3dDepthLoadOp::Clear(0x3f00_0000);
    let mut loaded = view(2, &[], &[], &[]);
    loaded.camera_3d.depth_load_op = Camera3dDepthLoadOp::Load;
    let world = world(vec![cleared, loaded]);
    let first = run(MainPass3dNode::new(false), &graph_for(1), &world);
    assert_eq!(first[0].depth_ops, Some(Operations { load: LoadOp::Clear(0x3f00_0000), store: true }));
    let second = run(MainPass3dNode::new(false), &graph_for(2), &world);
    assert_eq!(second[0].depth_ops, Some(LOAD_DEPTH));
}

#[test]
fn depth_is_cleared_to_the_far_plane_by_default() {
    assert_eq!(Camera3dDepthLoadOp::default(), Camera3dDepthLoadOp::Clear(0));
    assert_eq!(Camera3dDepthLoadOp::default().load_op(), LoadOp::Clear(0));
    assert_eq!(Camera3dDepthLoadOp::Load.load_op(), LoadOp::Load);
}

#[test]
fn empty_alpha_mask_and_transparent_phases_issue_no_pass() {
    let world = world(vec![view(1, &[5, 6, 7], &[], &[])]);
    let passes = run(MainPass3dNode::new(false), &graph_for(1), &world);
    assert_eq!(passes.len(), 1);
    assert_eq!(passes[0].label, PassLabel::MainOpaquePass3d);
    assert_eq!(passes[0].draws, vec![item(5), item(6), item(7)]);
}

#[test]
fn all_three_passes_come_in_order_and_draw_their_phase() {
    let world = world(vec![view(1, &[1, 2], &[3], &[6, 5, 4])]);
    let passes = run(MainPass3dNode::new(false), &graph_for(1), &world);
    let labels: Vec<PassLabel> = passes.iter().map(|pass| pass.label).collect();
    assert_eq!(
        labels,
        vec![
            PassLabel::MainOpaquePass3d,
            PassLabel::MainAlphaMaskPass3d,
            PassLabel::MainTransparentPass3d
        ]
    );
    assert_eq!(passes[0].draws, vec![item(1), item(2)]);
    assert_eq!(passes[1].draws, vec![item(3)]);
    assert_eq!(passes[2].draws, vec![item(6), item(5), item(4)]);
    for pass in &passes[1..] {
        assert_eq!(pass.color_ops, LOAD_COLOR);
        assert_eq!(pass.depth_ops, Some(LOAD_DEPTH));
        assert_eq!(pass.depth, Some(ViewDepthTexture { view: TextureViewId(21) }));
    }
    for pass in &passes {
        assert_eq!(pass.view_entity, Entity::from_raw(1));
        assert_eq!(pass.target, ViewTarget { main_texture: TextureViewId(11) });
        assert_eq!(pass.viewport, None);
    }
}

#[test]
fn sorted_phases_are_drawn_in_their_order() {
    let world = world(vec![view(1, &[1, 2, 2, 9], &[3, 4], &[8, 5, 5, 0])]);
    let passes = run(MainPass3dNode::new(false), &graph_for(1), &world);
    assert_eq!(passes.len(), 3);
    for pass in &passes[..2] {
        assert!(pass.draws.windows(2).all(|pair| pair[0].distance <= pair[1].distance));
    }
    assert!(passes[2].draws.windows(2).all(|pair| pair[0].distance >= pair[1].distance));
    let distances: Vec<u32> = passes[2].draws.iter().map(|item| item.distance).collect();
    assert_eq!(distances, vec![80, 50, 50, 0]);
}

#[test]
fn transparent_pass_without_alpha_mask_pass() {
    let world = world(vec![view(1, &[], &[], &[9])]);
    let passes = run(MainPass3dNode::new(false), &graph_for(1), &world);
    let labels: Vec<PassLabel> = passes.iter().map(|pass| pass.label).collect();
    assert_eq!(labels, vec![PassLabel::MainOpaquePass3d, PassLabel::MainTransparentPass3d]);
    assert_eq!(passes[1].depth_ops, Some(Operations { load: LoadOp::Load, store: true }));
}

#[test]
fn alpha_mask_pass_without_transparent_pass() {
    let world = world(vec![view(1, &[], &[8], &[])]);
    let passes = run(MainPass3dNode::new(false), &graph_for(1), &world);
    let labels: Vec<PassLabel> = passes.iter().map(|pass| pass.label).collect();
    assert_eq!(labels, vec![PassLabel::MainOpaquePass3d, PassLabel::MainAlphaMaskPass3d]);
}

#[test]
fn missing_view_input_fails_and_records_nothing() {
    let world = world(vec![view(1, &[1], &[2], &[3])]);
    let graph = RenderGraphContext { inputs: vec![] };
    let mut context = RenderContext::new();
    let result = MainPass3dNode::new(true).run(&graph, &mut context, &world);
    assert_eq!(result, Err(NodeRunError::MissingGraphInput));
    assert!(context.passes.is_empty());
}

#[test]
fn input_under_another_name_is_missing() {
    let world = world(vec![view(1, &[1], &[], &[])]);
    let graph = RenderGraphContext {
        inputs: vec![SlotInput {
            name: "views".to_string(),
            value: SlotValue::Entity(Entity::from_raw(1)),
        }],
    };
    let mut context = RenderContext::new();
    let result = MainPass3dNode::new(false).run(&graph, &mut context, &world);
    assert_eq!(result, Err(NodeRunError::MissingGraphInput));
    assert!(context.passes.is_empty());
}

#[test]
fn input_of_another_kind_is_missing() {
    let graph = RenderGraphContext {
        inputs: vec![
            SlotInput { name: MainPass3dNode::IN_VIEW.to_string(), value: SlotValue::Buffer(BufferId(3)) },
            SlotInput { name: MainPass3dNode::IN_VIEW.to_string(), value: SlotValue::Entity(Entity::from_raw(1)) },
        ],
    };
    assert_eq!(graph.get_input_entity(MainPass3dNode::IN_VIEW), Err(NodeRunError::MissingGraphInput));
    let world = world(vec![view(1, &[1], &[], &[])]);
    let mut context = RenderContext::new();
    let result = MainPass3dNode::new(false).run(&graph, &mut context, &world);
    assert_eq!(result, Err(NodeRunError::MissingGraphInput));
    assert!(context.passes.is_empty());
}

#[test]
fn first_input_of_the_name_is_taken() {
    let graph = RenderGraphContext {
        inputs: vec![
            SlotInput { name: "other".to_string(), value: SlotValue::Entity(Entity::from_raw(7)) },
            SlotInput { name: MainPass3dNode::IN_VIEW.to_string(), value: SlotValue::Entity(Entity::from_raw(2)) },
            SlotInput { name: MainPass3dNode::IN_VIEW.to_string(), value: SlotValue::Entity(Entity::from_raw(3)) },
        ],
    };
    assert_eq!(graph.get_input_entity(MainPass3dNode::IN_VIEW), Ok(Entity::from_raw(2)));
    assert_eq!(graph.get_input_entity("other"), Ok(Entity::from_raw(7)));
    assert_eq!(graph.get_input_entity("none"), Err(NodeRunError::MissingGraphInput));
}

#[test]
fn entity_without_view_state_is_no_error_and_records_nothing() {
    let world = world(vec![view(1, &[1], &[2], &[3])]);
    let mut context = RenderContext::new();
    let result = MainPass3dNode::new(true).run(&graph_for(2), &mut context, &world);
    assert_eq!(result, Ok(()));
    assert!(context.passes.is_empty());
}

#[test]
fn entity_of_another_generation_is_another_entity() {
    let world = world(vec![view(1, &[1], &[], &[])]);
    let graph = RenderGraphContext {
        inputs: vec![SlotInput {
            name: MainPass3dNode::IN_VIEW.to_string(),
            value: SlotValue::Entity(Entity { index: 1, generation: 1 }),
        }],
    };
    assert!(run(MainPass3dNode::new(false), &graph, &world).is_empty());
    assert_eq!(Entity::from_raw(1), Entity { index: 1, generation: 0 });
}

#[test]
fn first_view_of_an_entity_is_the_one_rendered() {
    let mut second = view(1, &[4], &[], &[]);
    second.target = ViewTarget { main_texture: TextureViewId(99) };
    let world = world(vec![view(2, &[], &[], &[]), view(1, &[3], &[], &[]), second]);
    assert_eq!(world.get_view(Entity::from_raw(1)), Some(&world.views[1]));
    assert_eq!(world.get_view(Entity::from_raw(5)), None);
    let passes = run(MainPass3dNode::new(false), &graph_for(1), &world);
    assert_eq!(passes.len(), 1);
    assert_eq!(passes[0].draws, vec![item(3)]);
    assert_eq!(passes[0].target, ViewTarget { main_texture: TextureViewId(11) });
}

#[test]
fn viewport_is_reset_after_a_camera_with_a_viewport() {
    let viewport =
        Viewport { x: 10, y: 20, width: 300, height: 200, min_depth: 0, max_depth: 0x3f80_0000 };
    let mut state = view(1, &[1], &[], &[2]);
    state.camera.viewport = Some(viewport);
    let world = world(vec![state]);
    let passes = run(MainPass3dNode::new(true), &graph_for(1), &world);
    assert_eq!(passes.len(), 3);
    assert_eq!(passes[0].viewport, Some(viewport));
    assert_eq!(passes[1].viewport, Some(viewport));
    assert_eq!(
        passes[2],
        TrackedRenderPass {
            label: PassLabel::ResetViewportPass3d,
            view_entity: Entity::from_raw(1),
            target: ViewTarget { main_texture: TextureViewId(11) },
            color_ops: LOAD_COLOR,
            depth: None,
            depth_ops: None,
            viewport: None,
            draws: vec![],
        }
    );
}

#[test]
fn viewport_is_not_reset_where_the_platform_does_not_need_it() {
    let viewport =
        Viewport { x: 0, y: 0, width: 64, height: 64, min_depth: 0, max_depth: 0x3f80_0000 };
    let mut state = view(1, &[], &[], &[]);
    state.camera.viewport = Some(viewport);
    let passes = run(MainPass3dNode::new(false), &graph_for(1), &world(vec![state]));
    assert_eq!(passes.len(), 1);
    assert_eq!(passes[0].viewport, Some(viewport));
}

#[test]
fn viewport_is_not_reset_after_a_camera_without_a_viewport() {
    let world = world(vec![view(1, &[1], &[2], &[3])]);
    let passes = run(MainPass3dNode::new(true), &graph_for(1), &world);
    assert_eq!(passes.len(), 3);
    assert_eq!(passes[2].label, PassLabel::MainTransparentPass3d);
}

#[test]
fn passes_are_recorded_after_those_of_earlier_runs() {
    let world = world(vec![view(1, &[1], &[], &[]), view(2, &[], &[2], &[])]);
    let node = MainPass3dNode::new(false);
    let mut context = RenderContext::new();
    assert_eq!(node.run(&graph_for(1), &mut context, &world), Ok(()));
    assert_eq!(node.run(&graph_for(2), &mut context, &world), Ok(()));
    assert_eq!(node.run(&RenderGraphContext { inputs: vec![] }, &mut context, &world),
        Err(NodeRunError::MissingGraphInput));
    let entities: Vec<u32> = context.passes.iter().map(|pass| pass.view_entity.index).collect();
    assert_eq!(entities, vec![1, 2, 2]);
    assert_eq!(context.passes[2].label, PassLabel::MainAlphaMaskPass3d);
}

#[test]
fn node_declares_one_entity_input() {
    let node = MainPass3dNode::new(false);
    assert!(!node.reset_viewport);
    assert!(MainPass3dNode::new(true).reset_viewport);
    assert_eq!(MainPass3dNode::IN_VIEW, "view");
    assert_eq!(
        node.input(),
        vec![SlotInfo { name: "view".to_string(), slot_type: SlotType::Entity }]
    );
}

#[test]
fn pass_labels_have_their_names() {
    assert_eq!(PassLabel::MainOpaquePass3d.name(), "main_opaque_pass_3d");
    assert_eq!(PassLabel::MainAlphaMaskPass3d.name(), "main_alpha_mask_pass_3d");
    assert_eq!(PassLabel::MainTransparentPass3d.name(), "main_transparent_pass_3d");
    assert_eq!(PassLabel::ResetViewportPass3d.name(), "reset_viewport_pass_3d");
}

#[test]
fn a_pass_draws_phases_one_after_the_other() {
    let mut pass = TrackedRenderPass::create_for_camera(
        PassLabel::MainOpaquePass3d,
        Entity::from_raw(4),
        &ViewTarget { main_texture: TextureViewId(1) },
        Operations::load_and_store(),
        None,
        None,
        &None,
    );
    assert!(pass.draws.is_empty());
    assert_eq!(pass.color_ops, LOAD_COLOR);
    pass.render_phase(&phase(&[1, 2]));
    pass.render_phase(&phase(&[]));
    pass.render_phase(&phase(&[3]));
    assert_eq!(pass.draws, vec![item(1), item(2), item(3)]);
    let mut context = RenderContext::new();
    context.submit(pass.clone());
    context.submit(pass.clone());
    assert_eq!(context.passes, vec![pass.clone(), pass]);
}

#[test]
fn clear_policy_gives_the_load_operation() {
    let default = ClearColor(BLACK);
    assert_eq!(ClearColorConfig::Default.load_op(&default), LoadOp::Clear(BLACK));
    assert_eq!(ClearColorConfig::Custom(RED).load_op(&default), LoadOp::Clear(RED));
    assert_eq!(ClearColorConfig::NoClear.load_op(&default), LoadOp::Load);
}

#[test]
fn sample_counts() {
    assert_eq!(Msaa::Off.samples(), 1);
    assert_eq!(Msaa::Sample2.samples(), 2);
    assert_eq!(Msaa::Sample4.samples(), 4);
    assert_eq!(Msaa::Sample8.samples(), 8);
}

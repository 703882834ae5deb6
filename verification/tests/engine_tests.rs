//! Engine-facade tests: lifecycle, resize, input forwarding and the
//! recorded frame.

use dyngine::ecs::ECSEntity;
use dyngine::engine::EngineInstance;
use dyngine::engine::MouseButton;
use dyngine::engine::MouseScrollDelta;
use dyngine::engine::TouchPhase;
use dyngine::engine::ViewportRegion;
use dyngine::engine::KEY_W;
use dyngine::input::ElementState;
use dyngine::scene::RenderCallState;
use dyngine::scene::RenderCommand;

fn f(word: u32) -> f32 {
    f32::from_bits(word)
}

fn viewport(width: f32, height: f32) -> ViewportRegion {
    ViewportRegion {
        x: 0.0f32.to_bits(),
        y: 0.0f32.to_bits(),
        width: width.to_bits(),
        height: height.to_bits(),
    }
}

fn started_engine() -> EngineInstance {
    let mut engine = EngineInstance::new(0);
    engine.start();
    engine
}

#[test]
fn start_builds_primary_camera_entity() {
    let engine = started_engine();
    let state = engine.engine_core_state.as_ref().unwrap();
    assert_eq!(state.ecs_world.get_primary_camera(), Some(1));
    assert_eq!(state.ecs_world.get_cameras().len(), 1);
    assert_eq!(state.render_pipeline.bind_group_layout_count, 1);
    assert_eq!(state.triangle_render_bundle.vertices, 3);
    assert_eq!(state.triangle_render_bundle.instances, 1);

    // The primary camera starts behind the origin looking down +Z.
    let position = state.ecs_world.components[0].position.unwrap().position;
    assert_eq!(f(position.x), 0.0);
    assert_eq!(f(position.y), 0.0);
    assert_eq!(f(position.z), -5.0);

    let node = state.render_scene.get_node_by_id(&1).unwrap();
    assert_eq!(f(node.camera.fov), 70.0f32.to_radians());
    assert!(!node.is_active_camera);
}

#[test]
fn render_on_empty_viewport_is_a_no_op() {
    let mut engine = started_engine();
    let mut call = RenderCallState::new();
    engine.render(&mut call, &ViewportRegion::zero(), 1, 0.016f64.to_bits());
    assert!(call.commands.is_empty());
}

#[test]
fn render_before_start_is_a_no_op() {
    let mut engine = EngineInstance::new(0);
    let mut call = RenderCallState::new();
    engine.render(&mut call, &viewport(800.0, 600.0), 1, 0.016f64.to_bits());
    assert!(call.commands.is_empty());
    assert!(engine.engine_core_state.is_none());
}

#[test]
fn render_records_the_frame_commands() {
    let mut engine = started_engine();
    let mut call = RenderCallState::new();
    let region = viewport(800.0, 600.0);
    engine.render(&mut call, &region, 1, 0.016f64.to_bits());
    assert_eq!(
        call.commands,
        vec![
            RenderCommand::BeginRenderPass { multisampled: false, store: true },
            RenderCommand::SetViewport {
                x: 0.0f32.to_bits(),
                y: 0.0f32.to_bits(),
                width: 800.0f32.to_bits(),
                height: 600.0f32.to_bits(),
            },
            RenderCommand::SetPipeline,
            RenderCommand::SetBindGroup { group_index: 0, buffer_index: 0 },
            RenderCommand::ExecuteTriangleBundle,
        ],
    );

    // The frame made the render camera active and resolved it, uploading
    // its buffer.
    let state = engine.engine_core_state.as_ref().unwrap();
    let node = state.render_scene.get_node_by_id(&1).unwrap();
    assert!(node.is_active_camera);
    assert!(!node.is_dirty());
    assert_eq!(
        state.render_scene.static_render_state.buffers[0],
        node.camera.camera_shader_state.view_proj,
    );
}

#[test]
fn held_forward_key_moves_the_camera() {
    let mut engine = started_engine();
    engine.handle_key_state(1, KEY_W, ElementState::Pressed, false, 0);

    let mut call = RenderCallState::new();
    engine.render(&mut call, &viewport(800.0, 600.0), 1, 0.5f64.to_bits());

    let state = engine.engine_core_state.as_ref().unwrap();
    let position = state.ecs_world.components[0].position.unwrap().position;
    assert_eq!(f(position.z), -5.0 + 0.5);

    // The one-shot input was cleared for the next frame.
    assert!(!engine.movement_input.forward);
}

#[test]
fn released_key_stops_the_camera() {
    let mut engine = started_engine();
    engine.handle_key_state(1, KEY_W, ElementState::Pressed, false, 0);
    let mut call = RenderCallState::new();
    engine.render(&mut call, &viewport(800.0, 600.0), 1, 0.5f64.to_bits());

    engine.handle_key_state(1, KEY_W, ElementState::Released, false, 0);
    let mut call = RenderCallState::new();
    engine.render(&mut call, &viewport(800.0, 600.0), 1, 0.5f64.to_bits());

    let state = engine.engine_core_state.as_ref().unwrap();
    let position = state.ecs_world.components[0].position.unwrap().position;
    assert_eq!(f(position.z), -4.5);
}

#[test]
fn resize_updates_every_camera_aspect() {
    let mut engine = started_engine();

    engine.resize(&viewport(800.0, 600.0));
    let state = engine.engine_core_state.as_ref().unwrap();
    let node = state.render_scene.get_node_by_id(&1).unwrap();
    assert_eq!(f(node.camera.aspect), 800.0 / 600.0);
    let position = node.camera.position;
    let direction = node.camera.direction;
    let fov = node.camera.fov;

    engine.resize(&viewport(1600.0, 900.0));
    let state = engine.engine_core_state.as_ref().unwrap();
    let node = state.render_scene.get_node_by_id(&1).unwrap();
    assert_eq!(f(node.camera.aspect), 1600.0 / 900.0);

    // Resize touches nothing but the aspect ratio.
    assert_eq!(node.camera.position, position);
    assert_eq!(node.camera.direction, direction);
    assert_eq!(node.camera.fov, fov);
}

#[test]
fn resize_on_empty_viewport_is_a_no_op() {
    let mut engine = started_engine();
    engine.resize(&viewport(800.0, 600.0));
    engine.resize(&ViewportRegion::zero());
    let state = engine.engine_core_state.as_ref().unwrap();
    let node = state.render_scene.get_node_by_id(&1).unwrap();
    assert_eq!(f(node.camera.aspect), 800.0 / 600.0);
}

#[test]
fn middle_mouse_toggles_roll_mode() {
    let mut engine = started_engine();
    assert!(!engine.movement_input.should_roll);

    engine.handle_mouse_button_event(1, MouseButton::Middle, ElementState::Pressed, 0);
    assert!(engine.movement_input.should_roll);

    engine.handle_mouse_button_event(1, MouseButton::Left, ElementState::Released, 0);
    assert!(engine.movement_input.should_roll);

    engine.handle_mouse_button_event(1, MouseButton::Middle, ElementState::Released, 0);
    assert!(!engine.movement_input.should_roll);
}

#[test]
fn mouse_motion_accumulates_scaled_deltas() {
    let mut engine = started_engine();
    engine.handle_mouse_motion(1, (250.0f64.to_bits(), (-125.0f64).to_bits()), 0);
    engine.handle_mouse_motion(1, (250.0f64.to_bits(), (-125.0f64).to_bits()), 0);

    let expected_yaw = 250.0f64 as f32 / 1000.0 + 250.0f64 as f32 / 1000.0;
    let expected_pitch = -125.0f64 as f32 / 1000.0 + -125.0f64 as f32 / 1000.0;
    assert_eq!(f(engine.movement_input.delta_yaw), expected_yaw);
    assert_eq!(f(engine.movement_input.delta_pitch), expected_pitch);
}

#[test]
fn mouse_wheel_is_reserved() {
    let mut engine = started_engine();
    engine.handle_mouse_wheel(
        1,
        MouseScrollDelta::LineDelta { x: 0.0f32.to_bits(), y: 1.0f32.to_bits() },
        TouchPhase::Moved,
        0,
    );
    assert!(!engine.movement_input.should_roll);
    assert!(engine.should_grab_cursor());
}

#[test]
fn window_state_tracks_focus() {
    let mut engine = started_engine();
    assert!(!engine.window_state.has_focus());
    engine.window_state.set_focus(true);
    assert!(engine.window_state.has_focus());
    engine.window_state.set_focus(false);
    assert!(!engine.window_state.has_focus());
}

#[test]
fn render_node_handle_lookup_follows_the_entity() {
    let engine = started_engine();
    let state = engine.engine_core_state.as_ref().unwrap();
    match state.ecs_world.get_entity(&1).unwrap() {
        ECSEntity::Camera(entity) => {
            assert_eq!(entity.get_render_node(), Some(1));
        },
    }
}

//! Render-scene tests: active-camera exclusivity, upload gating and the
//! recorded frame commands.

use dyngine::Vec3;
use dyngine::camera::CameraRenderNode;
use dyngine::camera::PerspectiveCamera;
use dyngine::scene::RenderCallState;
use dyngine::scene::RenderCommand;
use dyngine::scene::RenderScene;
use dyngine::scene::StaticRenderState;

fn v3(x: f32, y: f32, z: f32) -> Vec3 {
    Vec3 { x: x.to_bits(), y: y.to_bits(), z: z.to_bits() }
}

fn camera_at(x: f32) -> PerspectiveCamera {
    PerspectiveCamera::new(
        v3(x, 0.0, 0.0),
        v3(0.0, 0.0, 1.0),
        v3(0.0, 0.0, 1.0),
        v3(0.0, 1.0, 0.0),
        70.0f32.to_bits(),
        0.01f32.to_bits(),
        None,
        1.0f32.to_bits(),
    )
}

fn two_camera_scene() -> RenderScene {
    let mut scene = RenderScene::new(StaticRenderState::new());
    let a = CameraRenderNode::add_new(camera_at(0.0), &mut scene);
    let b = CameraRenderNode::add_new(camera_at(5.0), &mut scene);
    assert_eq!(a, 1);
    assert_eq!(b, 2);
    scene
}

fn node(scene: &RenderScene, handle: u64) -> CameraRenderNode {
    scene.get_node_by_id(&handle).unwrap()
}

#[test]
fn add_new_allocates_buffer_and_layout() {
    let scene = two_camera_scene();
    assert_eq!(scene.static_render_state.buffers.len(), 2);
    assert_eq!(scene.static_render_state.bind_group_layouts.len(), 2);
    let layout = scene.static_render_state.bind_group_layouts[0];
    assert_eq!(layout.binding, 0);
    assert!(layout.vertex_visible);
    assert!(!layout.has_dynamic_offset);
    // The buffer is seeded from the camera's shader state.
    assert_eq!(scene.static_render_state.buffers[0], node(&scene, 1).camera.camera_shader_state.view_proj);
    assert!(scene.get_node_by_id(&3).is_none());
}

#[test]
fn set_active_camera_is_exclusive() {
    let mut scene = two_camera_scene();
    scene.set_active_camera(&1);
    assert!(node(&scene, 1).is_active_camera);
    assert!(!node(&scene, 2).is_active_camera);

    scene.set_active_camera(&2);
    assert!(!node(&scene, 1).is_active_camera);
    assert!(node(&scene, 2).is_active_camera);
}

#[test]
fn activation_raises_node_dirty() {
    let mut scene = two_camera_scene();
    scene.set_active_camera(&1);
    assert!(node(&scene, 1).dirty);

    // Activation is idempotent: activating the active camera changes
    // nothing further.
    let mut call = RenderCallState::new();
    scene.render(&mut call);
    assert!(!node(&scene, 1).dirty);
    scene.set_active_camera(&1);
    assert!(!node(&scene, 1).dirty);
}

#[test]
fn render_records_bind_commands_in_insertion_order() {
    let mut scene = two_camera_scene();
    scene.set_active_camera(&1);
    let mut call = RenderCallState::new();
    scene.render(&mut call);
    assert_eq!(
        call.commands,
        vec![
            RenderCommand::SetBindGroup { group_index: 0, buffer_index: 0 },
            RenderCommand::SetBindGroup { group_index: 0, buffer_index: 1 },
        ],
    );
}

#[test]
fn render_resolves_dirty_nodes() {
    let mut scene = two_camera_scene();
    scene.set_active_camera(&1);
    let mut call = RenderCallState::new();
    scene.render(&mut call);
    assert!(!node(&scene, 1).is_dirty());
    assert!(!node(&scene, 2).is_dirty());
}

#[test]
fn upload_happens_only_for_the_dirty_active_camera() {
    let mut scene = two_camera_scene();
    scene.set_active_camera(&1);
    let mut call = RenderCallState::new();
    scene.render(&mut call);

    // Plant sentinels: a resolve without a dirty active camera must leave
    // the buffers alone.
    let sentinel = [7u32; 16];
    scene.static_render_state.buffers[0] = sentinel;
    scene.static_render_state.buffers[1] = sentinel;
    let mut call = RenderCallState::new();
    scene.render(&mut call);
    assert_eq!(scene.static_render_state.buffers[0], sentinel);
    assert_eq!(scene.static_render_state.buffers[1], sentinel);

    // A re-activation of the already active camera raises nothing, so the
    // buffers still keep their sentinels.
    scene.set_active_camera(&1);
    let mut call = RenderCallState::new();
    scene.render(&mut call);
    assert_eq!(scene.static_render_state.buffers[0], sentinel);
    assert_eq!(scene.static_render_state.buffers[1], sentinel);
}

#[test]
fn active_swap_writes_only_the_new_camera() {
    // Camera A renders a frame; then B becomes active and a frame runs:
    // only B's buffer is written, A's contents stay as they were.
    let mut scene = two_camera_scene();
    scene.set_active_camera(&1);
    let mut call = RenderCallState::new();
    scene.render(&mut call);
    let a_before = scene.static_render_state.buffers[0];

    scene.set_active_camera(&2);
    let mut call = RenderCallState::new();
    scene.render(&mut call);

    assert_eq!(scene.static_render_state.buffers[0], a_before);
    assert_eq!(
        scene.static_render_state.buffers[1],
        node(&scene, 2).camera.camera_shader_state.view_proj,
    );
    // The two cameras stand apart, so the written block differs from A's.
    assert_ne!(scene.static_render_state.buffers[1], a_before);
}

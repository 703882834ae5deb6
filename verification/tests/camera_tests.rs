//! Camera tests: dirty gating, identity resolve, the derived basis and the
//! resolved shader-state block.

use dyngine::Vec3;
use dyngine::camera::PerspectiveCamera;

fn v3(x: f32, y: f32, z: f32) -> Vec3 {
    Vec3 { x: x.to_bits(), y: y.to_bits(), z: z.to_bits() }
}

fn f(word: u32) -> f32 {
    f32::from_bits(word)
}

fn basic_camera() -> PerspectiveCamera {
    PerspectiveCamera::new(
        v3(0.0, 0.0, 0.0),
        v3(0.0, 0.0, 1.0),
        v3(0.0, 0.0, 1.0),
        v3(0.0, 1.0, 0.0),
        90.0f32.to_bits(),
        1.0f32.to_bits(),
        Some(10.0f32.to_bits()),
        1.0f32.to_bits(),
    )
}

#[test]
fn new_camera_is_dirty_with_identity_block() {
    let camera = basic_camera();
    assert!(camera.is_dirty());
    let block = camera.camera_shader_state.view_proj;
    for row in 0..4 {
        for col in 0..4 {
            let expected = if row == col { 1.0f32 } else { 0.0f32 };
            assert_eq!(f(block[col * 4 + row]), expected);
        }
    }
}

#[test]
fn fov_is_stored_in_radians() {
    let camera = basic_camera();
    assert_eq!(camera.fov(), 90.0f32.to_radians().to_bits());
}

#[test]
fn setter_with_same_value_does_not_raise_dirty() {
    let mut camera = basic_camera();
    camera.update();
    assert!(!camera.is_dirty());

    camera.set_position(v3(0.0, 0.0, 0.0));
    assert!(!camera.is_dirty());
    camera.set_direction(v3(0.0, 0.0, 1.0));
    assert!(!camera.is_dirty());
    camera.set_up_axis(v3(0.0, 1.0, 0.0));
    assert!(!camera.is_dirty());
    camera.set_aspect(1.0f32.to_bits());
    assert!(!camera.is_dirty());
    camera.set_fov(90.0f32.to_radians().to_bits());
    assert!(!camera.is_dirty());
    camera.set_near(1.0f32.to_bits());
    assert!(!camera.is_dirty());
    camera.set_far(10.0f32.to_bits());
    assert!(!camera.is_dirty());
}

#[test]
fn setter_with_different_value_raises_dirty() {
    let mut camera = basic_camera();
    camera.update();
    assert!(!camera.is_dirty());
    camera.set_position(v3(1.0, 0.0, 0.0));
    assert!(camera.is_dirty());

    let mut camera = basic_camera();
    camera.update();
    camera.set_aspect((16.0f32 / 9.0).to_bits());
    assert!(camera.is_dirty());

    let mut camera = basic_camera();
    camera.update();
    camera.set_far(20.0f32.to_bits());
    assert!(camera.is_dirty());
}

#[test]
fn resolving_clean_camera_keeps_the_block() {
    let mut camera = basic_camera();
    camera.update();
    let resolved = camera.camera_shader_state.view_proj;
    camera.update();
    assert_eq!(camera.camera_shader_state.view_proj, resolved);
}

#[test]
fn identity_camera_block_matches_projection_times_view() {
    // A camera at the origin looking down +Z with a 90-degree field of view,
    // aspect 1, near 1 and far 10.
    let mut camera = basic_camera();
    camera.update();
    assert!(!camera.is_dirty());

    let view = glam::Mat4::look_at_lh(
        glam::Vec3::new(0.0, 0.0, 0.0),
        glam::Vec3::new(0.0, 0.0, 1.0),
        glam::Vec3::new(0.0, 1.0, 0.0),
    );
    let projection = glam::Mat4::perspective_lh(90.0f32.to_radians(), 1.0, 1.0, 10.0);
    let expected = (projection * view).to_cols_array();

    let block = camera.camera_shader_state.view_proj;
    for i in 0..16 {
        assert!((f(block[i]) - expected[i]).abs() < 1e-5);
    }
}

#[test]
fn infinite_far_plane_uses_infinite_projection() {
    let mut camera = PerspectiveCamera::new(
        v3(0.0, 0.0, 0.0),
        v3(0.0, 0.0, 1.0),
        v3(0.0, 0.0, 1.0),
        v3(0.0, 1.0, 0.0),
        90.0f32.to_bits(),
        1.0f32.to_bits(),
        None,
        1.0f32.to_bits(),
    );
    camera.update();

    let view = glam::Mat4::look_at_lh(
        glam::Vec3::ZERO,
        glam::Vec3::new(0.0, 0.0, 1.0),
        glam::Vec3::new(0.0, 1.0, 0.0),
    );
    let projection = glam::Mat4::perspective_infinite_lh(90.0f32.to_radians(), 1.0, 1.0);
    let expected = (projection * view).to_cols_array();

    let block = camera.camera_shader_state.view_proj;
    for i in 0..16 {
        assert!((f(block[i]) - expected[i]).abs() < 1e-5);
    }
}

#[test]
fn direction_mutation_rebuilds_orthonormal_basis() {
    // A direction perpendicular to the up axis keeps the derived basis
    // orthonormal.
    let mut camera = basic_camera();
    camera.set_direction(v3(0.6, 0.0, 0.8));
    camera.update();

    let direction = camera.direction();
    let right = camera.right();
    let up = camera.up();
    let d = glam::Vec3::new(f(direction.x), f(direction.y), f(direction.z));
    let r = glam::Vec3::new(f(right.x), f(right.y), f(right.z));
    let u = glam::Vec3::new(f(up.x), f(up.y), f(up.z));

    assert!(d.dot(r).abs() < 1e-5);
    assert!(d.dot(u).abs() < 1e-5);
    assert!(r.dot(u).abs() < 1e-5);
    assert!((d.length() - 1.0).abs() < 1e-5);
    assert!((r.length() - 1.0).abs() < 1e-5);
    assert!((u.length() - 1.0).abs() < 1e-5);
}

#[test]
fn up_axis_mutation_rebuilds_basis() {
    let mut camera = basic_camera();
    camera.set_up_axis(v3(1.0, 0.0, 0.0));
    camera.update();

    // right = up-axis x direction, up = direction x right.
    let expected_right = glam::Vec3::new(1.0, 0.0, 0.0).cross(glam::Vec3::new(0.0, 0.0, 1.0));
    let expected_up = glam::Vec3::new(0.0, 0.0, 1.0).cross(expected_right);
    let right = camera.right();
    let up = camera.up();
    assert_eq!(f(right.x), expected_right.x);
    assert_eq!(f(right.y), expected_right.y);
    assert_eq!(f(right.z), expected_right.z);
    assert_eq!(f(up.x), expected_up.x);
    assert_eq!(f(up.y), expected_up.y);
    assert_eq!(f(up.z), expected_up.z);
}

#[test]
fn rotation_euler_points_the_direction() {
    let mut camera = basic_camera();
    camera.update();
    camera.set_rotation_euler(30.0f32.to_bits(), 20.0f32.to_bits());
    assert!(camera.is_dirty());

    let yaw = std::hint::black_box(30.0f32.to_radians());
    let pitch = std::hint::black_box(20.0f32.to_radians());
    let direction = camera.direction();
    assert_eq!(f(direction.x), yaw.cos() * pitch.cos());
    assert_eq!(f(direction.y), pitch.sin());
    assert_eq!(f(direction.z), yaw.sin() * pitch.cos());
}

#[test]
fn roll_euler_rolls_the_up_axis() {
    let mut camera = basic_camera();
    camera.set_roll_euler(45.0f32.to_bits());

    let roll = std::hint::black_box(45.0f32.to_radians());
    let up_axis = camera.up_axis();
    assert_eq!(f(up_axis.x), roll.cos());
    assert_eq!(f(up_axis.y), roll.sin());
    assert_eq!(f(up_axis.z), 0.0);
}

#[test]
fn set_rotation_rotates_the_fixed_axes() {
    let mut camera = basic_camera();
    camera.update();
    let quat = glam::Quat::from_axis_angle(glam::Vec3::new(0.0, 1.0, 0.0), 0.5);
    camera.set_rotation(dyngine::Quat {
        x: quat.x.to_bits(),
        y: quat.y.to_bits(),
        z: quat.z.to_bits(),
        w: quat.w.to_bits(),
    });
    assert!(camera.is_dirty());

    let expected = quat.mul_vec3(glam::Vec3::new(0.0, 0.0, 1.0));
    let direction = camera.direction();
    assert_eq!(f(direction.x), expected.x);
    assert_eq!(f(direction.y), expected.y);
    assert_eq!(f(direction.z), expected.z);
}

#[test]
fn yaw_pitch_roll_report_degrees() {
    let mut camera = basic_camera();
    camera.set_direction(v3(0.6, 0.0, 0.8));

    let scale = 180.0f32 / std::f32::consts::PI;
    assert_eq!(
        f32::from_bits(camera.yaw()),
        std::hint::black_box(0.8f32).atan2(std::hint::black_box(0.6)) * scale,
    );
    assert_eq!(
        f32::from_bits(camera.pitch()),
        std::hint::black_box(0.0f32).asin() * scale,
    );
    assert_eq!(
        f32::from_bits(camera.roll()),
        std::hint::black_box(1.0f32).atan2(std::hint::black_box(0.0)) * scale,
    );
}

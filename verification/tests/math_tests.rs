//! Quaternion-helper and input-aggregation tests.

use dyngine::Vec3;
use dyngine::i18n::I18nError;
use dyngine::input::ElementState;
use dyngine::input::InputHandler;
use dyngine::input::KeyboardInputHandler;
use dyngine::math::QuatExt;

fn v3(x: f32, y: f32, z: f32) -> Vec3 {
    Vec3 { x: x.to_bits(), y: y.to_bits(), z: z.to_bits() }
}

fn f(word: u32) -> f32 {
    f32::from_bits(word)
}

#[test]
fn look_forward_along_the_axes_is_identity() {
    let q = QuatExt::look_forward(v3(0.0, 0.0, 1.0), v3(0.0, 1.0, 0.0));
    assert_eq!(f(q.x), 0.0);
    assert_eq!(f(q.y), 0.0);
    assert_eq!(f(q.z), 0.0);
    assert_eq!(f(q.w), 1.0);
}

#[test]
fn look_forward_matches_the_rotation_matrix() {
    // With an up vector orthogonal to the forward direction, the basis the
    // helper builds is orthonormal and the extracted quaternion is the
    // rotation of that matrix.
    let forward = glam::Vec3::new(0.3, -0.4, 0.87).normalize();
    let right = glam::Vec3::Y.cross(forward).normalize();
    let up = forward.cross(right);
    let q = QuatExt::look_forward(
        v3(forward.x, forward.y, forward.z),
        v3(up.x, up.y, up.z),
    );
    let quat = glam::Quat::from_xyzw(f(q.x), f(q.y), f(q.z), f(q.w));
    assert!((quat.length() - 1.0).abs() < 1e-4);

    let right2 = up.cross(forward).normalize();
    let expected = glam::Quat::from_mat3(&glam::Mat3::from_cols(right2, up, forward));
    // Both unit quaternions describe one rotation, up to sign.
    let dot = quat.dot(expected).abs();
    assert!((dot - 1.0).abs() < 1e-4);
}

#[test]
fn keyboard_tracks_reported_key_states() {
    let mut keyboard = KeyboardInputHandler::new();
    assert!(!keyboard.is_key_pressed(87));
    assert_eq!(keyboard.get_key_state(87), ElementState::Released);

    keyboard.set_key_pressed(87, ElementState::Pressed);
    keyboard.set_key_pressed(83, ElementState::Pressed);
    assert!(keyboard.is_key_pressed(87));
    assert!(keyboard.is_key_pressed(83));

    keyboard.set_key_pressed(87, ElementState::Released);
    assert!(!keyboard.is_key_pressed(87));
    assert!(keyboard.is_key_pressed(83));
}

#[test]
fn first_registered_device_is_the_primary_keyboard() {
    let mut handler = InputHandler::new();
    assert!(handler.get_primary_keyboard().is_none());

    handler.set_key_pressed(7, 87, ElementState::Pressed);
    handler.set_key_pressed(9, 83, ElementState::Pressed);

    let primary = handler.get_primary_keyboard().unwrap();
    assert!(primary.is_key_pressed(87));
    assert!(!primary.is_key_pressed(83));
}

#[test]
fn i18n_error_carries_its_message() {
    let error = I18nError::new(String::from("message not found"));
    assert_eq!(error.message().as_str(), "message not found");
}

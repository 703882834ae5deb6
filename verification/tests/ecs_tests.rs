//! Entity-world tests: the integrator and flying-camera laws, the XOR move
//! pairing, and the bridge onto the render scene.

use dyngine::Vec3;
use dyngine::ecs::CameraEntity;
use dyngine::ecs::ECSWorld;
use dyngine::ecs::EntityComponents;
use dyngine::ecs::FlyingCameraComponent;
use dyngine::ecs::FlyingCameraSystem;
use dyngine::ecs::MovementInput;
use dyngine::ecs::NewtonianExplicitIntegratorSystem;
use dyngine::ecs::PositionComponent;
use dyngine::ecs::RotationComponent;
use dyngine::ecs::VelocityComponent;
use dyngine::ecs::CameraComponent;
use dyngine::scene::RenderNode;
use dyngine::scene::RenderScene;
use dyngine::scene::StaticRenderState;

fn v3(x: f32, y: f32, z: f32) -> Vec3 {
    Vec3 { x: x.to_bits(), y: y.to_bits(), z: z.to_bits() }
}

fn f(word: u32) -> f32 {
    f32::from_bits(word)
}

fn fv(v: Vec3) -> glam::Vec3 {
    glam::Vec3::new(f(v.x), f(v.y), f(v.z))
}

fn flying_entity(yaw: f32, pitch: f32, roll: f32) -> EntityComponents {
    let quat = glam::Quat::from_euler(
        glam::EulerRot::ZYX,
        std::hint::black_box(roll),
        std::hint::black_box(yaw),
        std::hint::black_box(pitch),
    );
    EntityComponents {
        position: Some(PositionComponent { position: v3(0.0, 0.0, 0.0) }),
        velocity: Some(VelocityComponent { velocity: v3(0.0, 0.0, 0.0) }),
        rotation: Some(RotationComponent {
            yaw: yaw.to_bits(),
            pitch: pitch.to_bits(),
            roll: roll.to_bits(),
            quaternion: dyngine::Quat {
                x: quat.x.to_bits(),
                y: quat.y.to_bits(),
                z: quat.z.to_bits(),
                w: quat.w.to_bits(),
            },
        }),
        camera: Some(CameraComponent {
            forward_axis: v3(0.0, 0.0, 1.0),
            up_axis: v3(0.0, 1.0, 0.0),
            fov: 70.0f32.to_bits(),
        }),
        flying_camera: Some(FlyingCameraComponent),
    }
}

#[test]
fn integrator_adds_velocity_times_delta_time() {
    let mut components = vec![EntityComponents {
        position: Some(PositionComponent { position: v3(1.0, 2.0, 3.0) }),
        velocity: Some(VelocityComponent { velocity: v3(1.5, -2.0, 0.25) }),
        rotation: None,
        camera: None,
        flying_camera: None,
    }];
    NewtonianExplicitIntegratorSystem::run(&mut components, 0.3f32.to_bits());

    let position = components[0].position.unwrap().position;
    assert_eq!(f(position.x), 1.0 + 1.5 * 0.3);
    assert_eq!(f(position.y), 2.0 + -2.0 * 0.3);
    assert_eq!(f(position.z), 3.0 + 0.25 * 0.3);
}

#[test]
fn integrator_skips_entities_without_position_or_velocity() {
    let mut components = vec![EntityComponents {
        position: Some(PositionComponent { position: v3(1.0, 2.0, 3.0) }),
        velocity: None,
        rotation: None,
        camera: None,
        flying_camera: None,
    }];
    NewtonianExplicitIntegratorSystem::run(&mut components, 0.3f32.to_bits());
    let position = components[0].position.unwrap().position;
    assert_eq!(f(position.x), 1.0);
    assert_eq!(f(position.y), 2.0);
    assert_eq!(f(position.z), 3.0);
}

#[test]
fn look_deltas_increment_yaw_and_pitch() {
    let mut components = vec![flying_entity(0.25, -0.5, 0.75)];
    let mut input = MovementInput::new();
    input.delta_yaw = 0.125f32.to_bits();
    input.delta_pitch = 0.0625f32.to_bits();
    FlyingCameraSystem::run(&mut components, &input);

    let rotation = components[0].rotation.unwrap();
    assert_eq!(f(rotation.yaw), 0.25 + 0.125);
    assert_eq!(f(rotation.pitch), -0.5 + 0.0625);
    assert_eq!(f(rotation.roll), 0.75);

    let expected = glam::Quat::from_euler(
        glam::EulerRot::ZYX,
        std::hint::black_box(0.75),
        std::hint::black_box(0.25 + 0.125),
        std::hint::black_box(-0.5 + 0.0625),
    );
    assert_eq!(f(rotation.quaternion.x), expected.x);
    assert_eq!(f(rotation.quaternion.y), expected.y);
    assert_eq!(f(rotation.quaternion.z), expected.z);
    assert_eq!(f(rotation.quaternion.w), expected.w);
}

#[test]
fn roll_mode_increments_only_roll() {
    // Roll mode with an existing pitch: the yaw delta goes to roll, and yaw
    // and pitch keep their values.
    let mut components = vec![flying_entity(0.0, 0.2, 0.0)];
    let mut input = MovementInput::new();
    input.should_roll = true;
    input.delta_yaw = 0.5f32.to_bits();
    input.delta_pitch = 0.2f32.to_bits();
    FlyingCameraSystem::run(&mut components, &input);

    let rotation = components[0].rotation.unwrap();
    assert_eq!(f(rotation.roll), 0.5);
    assert_eq!(f(rotation.yaw), 0.0);
    assert_eq!(f(rotation.pitch), 0.2);

    let expected = glam::Quat::from_euler(
        glam::EulerRot::ZYX,
        std::hint::black_box(0.5),
        std::hint::black_box(0.0),
        std::hint::black_box(0.2),
    );
    assert_eq!(f(rotation.quaternion.x), expected.x);
    assert_eq!(f(rotation.quaternion.y), expected.y);
    assert_eq!(f(rotation.quaternion.z), expected.z);
    assert_eq!(f(rotation.quaternion.w), expected.w);
}

#[test]
fn equal_opposite_flags_are_excluded() {
    // Forward and backward both held cancel out; the right flag alone wins
    // its pair.
    let mut components = vec![flying_entity(0.0, 0.0, 0.0)];
    let mut input = MovementInput::new();
    input.forward = true;
    input.backward = true;
    input.right = true;
    FlyingCameraSystem::run(&mut components, &input);

    let velocity = components[0].velocity.unwrap().velocity;
    // With the identity rotation: right = up x forward = (1, 0, 0).
    assert_eq!(f(velocity.x), 1.0);
    assert_eq!(f(velocity.y), 0.0);
    assert_eq!(f(velocity.z), 0.0);
}

#[test]
fn all_flags_clear_give_zero_velocity() {
    let mut components = vec![flying_entity(0.3, 0.1, 0.0)];
    let input = MovementInput::new();
    FlyingCameraSystem::run(&mut components, &input);
    let velocity = components[0].velocity.unwrap().velocity;
    assert_eq!(f(velocity.x), 0.0);
    assert_eq!(f(velocity.y), 0.0);
    assert_eq!(f(velocity.z), 0.0);
}

#[test]
fn forward_move_advances_position() {
    // A flying camera whose forward axis is +Z, rotation identity: holding
    // forward for half a second moves it half a unit down +Z.
    let mut ecs_world = ECSWorld::new();
    let mut render_scene = RenderScene::new(StaticRenderState::new());
    let handle = CameraEntity::add_flying(
        &mut ecs_world,
        &mut render_scene,
        v3(0.0, 0.0, 0.0),
        v3(0.0, 0.0, 1.0),
        v3(0.0, 0.0, 1.0),
        v3(0.0, 1.0, 0.0),
        70.0f32.to_bits(),
        0.01f32.to_bits(),
        None,
        1.0f32.to_bits(),
    );
    assert_eq!(handle, 1);

    let mut input = MovementInput::new();
    input.forward = true;
    ecs_world.update(0.5f64.to_bits(), input, &mut render_scene);

    let position = ecs_world.components[0].position.unwrap().position;
    assert_eq!(f(position.x), 0.0);
    assert_eq!(f(position.y), 0.0);
    assert_eq!(f(position.z), 0.5);

    // The delta-time resource took the narrowed value.
    assert_eq!(ecs_world.delta_time, 0.5f32.to_bits());

    // The bridge copied the position onto the camera render node.
    let node = render_scene.get_node_by_id(&1).unwrap();
    assert_eq!(f(node.camera.position.z), 0.5);
}

#[test]
fn sprint_diagonal_is_not_renormalized() {
    // Forward and right held with sprint: the velocity is the unnormalized
    // diagonal scaled by two, magnitude two root two, and one second of it
    // lands on (2, 0, 2).
    let mut ecs_world = ECSWorld::new();
    let mut render_scene = RenderScene::new(StaticRenderState::new());
    CameraEntity::add_flying(
        &mut ecs_world,
        &mut render_scene,
        v3(0.0, 0.0, 0.0),
        v3(0.0, 0.0, 1.0),
        v3(0.0, 0.0, 1.0),
        v3(0.0, 1.0, 0.0),
        70.0f32.to_bits(),
        0.01f32.to_bits(),
        None,
        1.0f32.to_bits(),
    );

    let mut input = MovementInput::new();
    input.forward = true;
    input.right = true;
    input.sprinting = true;
    ecs_world.update(1.0f64.to_bits(), input, &mut render_scene);

    let velocity = ecs_world.components[0].velocity.unwrap().velocity;
    let magnitude = fv(velocity).length();
    assert!((magnitude - 2.0 * 2.0f32.sqrt()).abs() < 1e-6);

    let position = ecs_world.components[0].position.unwrap().position;
    assert_eq!(f(position.x), 2.0);
    assert_eq!(f(position.y), 0.0);
    assert_eq!(f(position.z), 2.0);
}

#[test]
fn add_flying_seeds_rotation_from_direction() {
    // A direction at a right angle to the forward axis seeds the rotation
    // about their normalized cross product by the angle between them.
    let mut ecs_world = ECSWorld::new();
    let mut render_scene = RenderScene::new(StaticRenderState::new());
    CameraEntity::add_flying(
        &mut ecs_world,
        &mut render_scene,
        v3(0.0, 0.0, 0.0),
        v3(1.0, 0.0, 0.0),
        v3(0.0, 0.0, 1.0),
        v3(0.0, 1.0, 0.0),
        70.0f32.to_bits(),
        0.01f32.to_bits(),
        None,
        1.0f32.to_bits(),
    );

    let axis = glam::Vec3::new(0.0, 0.0, 1.0).cross(glam::Vec3::new(1.0, 0.0, 0.0)).normalize();
    let expected = glam::Quat::from_axis_angle(axis, std::hint::black_box(0.0f32).acos());
    let rotation = ecs_world.components[0].rotation.unwrap();
    assert_eq!(f(rotation.quaternion.x), expected.x);
    assert_eq!(f(rotation.quaternion.y), expected.y);
    assert_eq!(f(rotation.quaternion.z), expected.z);
    assert_eq!(f(rotation.quaternion.w), expected.w);

    let (yaw, pitch, roll) = expected.to_euler(glam::EulerRot::YXZ);
    assert_eq!(f(rotation.yaw), yaw);
    assert_eq!(f(rotation.pitch), pitch);
    assert_eq!(f(rotation.roll), roll);
}

#[test]
fn add_flying_aligned_direction_is_identity_rotation() {
    let mut ecs_world = ECSWorld::new();
    let mut render_scene = RenderScene::new(StaticRenderState::new());
    CameraEntity::add_flying(
        &mut ecs_world,
        &mut render_scene,
        v3(0.0, 0.0, 0.0),
        v3(0.0, 0.0, 1.0),
        v3(0.0, 0.0, 1.0),
        v3(0.0, 1.0, 0.0),
        70.0f32.to_bits(),
        0.01f32.to_bits(),
        None,
        1.0f32.to_bits(),
    );
    let rotation = ecs_world.components[0].rotation.unwrap();
    assert_eq!(f(rotation.quaternion.x), 0.0);
    assert_eq!(f(rotation.quaternion.y), 0.0);
    assert_eq!(f(rotation.quaternion.z), 0.0);
    assert_eq!(f(rotation.quaternion.w), 1.0);
}

#[test]
fn world_tracks_camera_entities() {
    let mut ecs_world = ECSWorld::new();
    let mut render_scene = RenderScene::new(StaticRenderState::new());
    assert!(ecs_world.get_primary_camera().is_none());

    let first = CameraEntity::add_flying(
        &mut ecs_world,
        &mut render_scene,
        v3(0.0, 0.0, 0.0),
        v3(0.0, 0.0, 1.0),
        v3(0.0, 0.0, 1.0),
        v3(0.0, 1.0, 0.0),
        70.0f32.to_bits(),
        0.01f32.to_bits(),
        None,
        1.0f32.to_bits(),
    );
    let second = CameraEntity::add_flying(
        &mut ecs_world,
        &mut render_scene,
        v3(1.0, 0.0, 0.0),
        v3(0.0, 0.0, 1.0),
        v3(0.0, 0.0, 1.0),
        v3(0.0, 1.0, 0.0),
        70.0f32.to_bits(),
        0.01f32.to_bits(),
        None,
        1.0f32.to_bits(),
    );
    assert_eq!(first, 1);
    assert_eq!(second, 2);
    assert_eq!(ecs_world.get_cameras().len(), 2);
    assert_eq!(ecs_world.get_primary_camera(), Some(1));
    assert!(ecs_world.get_entity(&1).is_some());
    assert!(ecs_world.get_entity(&2).is_some());
    assert!(ecs_world.get_entity(&3).is_none());

    // Each camera entity owns its own render node.
    match (ecs_world.get_entity(&1).unwrap(), ecs_world.get_entity(&2).unwrap()) {
        (dyngine::ecs::ECSEntity::Camera(a), dyngine::ecs::ECSEntity::Camera(b)) => {
            assert_eq!(a.get_render_node(), Some(1));
            assert_eq!(b.get_render_node(), Some(2));
        },
    }
    match render_scene.nodes[1].1 {
        RenderNode::Camera(node) => assert_eq!(f(node.camera.position.x), 1.0),
    }
}

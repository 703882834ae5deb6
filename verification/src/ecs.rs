//! The entity/component world and the fixed two-system pipeline.
//!
//! Entities are composed from position, velocity, rotation, camera and
//! flying-camera components. Each tick dispatches the flying-camera system
//! (movement input to rotation and velocity) and then the Newtonian explicit
//! integrator (velocity to position), in that order, and finally the bridge
//! copies each wrapped entity's state onto the render node it owns.

use vstd::prelude::*;

use crate::camera::CameraRenderNode;
use crate::camera::PerspectiveCamera;
use crate::fbits::EPSILON_F32;
use crate::fbits::ONE_F32;
use crate::fbits::PI_F32;
use crate::fbits::TWO_F32;
use crate::fbits::Quat;
use crate::fbits::Vec3;
use crate::fbits::fabs;
use crate::fbits::fabs_bits;
use crate::fbits::fadd;
use crate::fbits::fadd_bits;
use crate::fbits::facos;
use crate::fbits::facos_bits;
use crate::fbits::flt;
use crate::fbits::flt_bits;
use crate::fbits::fsub;
use crate::fbits::fsub_bits;
use crate::fbits::narrow;
use crate::fbits::narrow_bits;
use crate::fbits::qaxis_angle;
use crate::fbits::qeuler_zyx;
use crate::fbits::qrot3;
use crate::fbits::quat_from_axis_angle;
use crate::fbits::quat_from_euler_zyx;
use crate::fbits::quat_rotate;
use crate::fbits::quat_to_euler_yxz;
use crate::fbits::quat_to_euler_yxz_bits;
use crate::fbits::vadd3;
use crate::fbits::vcross3;
use crate::fbits::vdot_bits;
use crate::fbits::vec3_add;
use crate::fbits::vec3_cross;
use crate::fbits::vec3_dot;
use crate::fbits::vec3_mul;
use crate::fbits::vec3_neg;
use crate::fbits::vec3_normalize;
use crate::fbits::vmul3;
use crate::fbits::vneg3;
use crate::fbits::vnormalize3;
use crate::scene::RenderNode;
use crate::scene::RenderNodeHandle;
use crate::scene::RenderScene;

verus! {

#[derive(Clone, Copy, Debug)]
pub struct PositionComponent {
    pub position: Vec3,
}

#[derive(Clone, Copy, Debug)]
pub struct VelocityComponent {
    pub velocity: Vec3,
}

#[derive(Clone, Copy, Debug)]
pub struct RotationComponent {
    /// The yaw, pitch and roll angles determine the quaternion; all radians.
    pub yaw: u32,
    pub pitch: u32,
    pub roll: u32,
    pub quaternion: Quat,
}

#[derive(Clone, Copy, Debug)]
pub struct CameraComponent {
    /// The camera's forward axis (not to be confused with its forward
    /// vector).
    pub forward_axis: Vec3,
    /// The camera's up axis (not to be confused with its up vector).
    pub up_axis: Vec3,
    /// The camera's vertical field of view.
    pub fov: u32,
}

/// The marker component gating the flying-camera system.
#[derive(Clone, Copy, Debug, PartialEq, Eq, Structural)]
pub struct FlyingCameraComponent;

impl Default for FlyingCameraComponent {
    fn default() -> (r: FlyingCameraComponent)
        ensures
            r == FlyingCameraComponent,
    {
        FlyingCameraComponent
    }
}

/// The component storage of one entity; a component an entity was not built
/// with is absent.
#[derive(Clone, Copy, Debug)]
pub struct EntityComponents {
    pub position: Option<PositionComponent>,
    pub velocity: Option<VelocityComponent>,
    pub rotation: Option<RotationComponent>,
    pub camera: Option<CameraComponent>,
    pub flying_camera: Option<FlyingCameraComponent>,
}

/// The per-frame movement input: boolean direction flags plus the
/// accumulated look deltas (scalar words).
#[derive(Clone, Copy, Debug)]
pub struct MovementInput {
    pub forward: bool,
    pub backward: bool,
    pub left: bool,
    pub right: bool,
    pub up: bool,
    pub down: bool,
    pub sprinting: bool,
    pub should_roll: bool,
    pub delta_yaw: u32,
    pub delta_pitch: u32,
}

impl MovementInput {
    /// The all-clear input: no flags set and zero look deltas.
    pub open spec fn spec_cleared() -> MovementInput {
        MovementInput {
            forward: false,
            backward: false,
            left: false,
            right: false,
            up: false,
            down: false,
            sprinting: false,
            should_roll: false,
            delta_yaw: 0u32,
            delta_pitch: 0u32,
        }
    }

    pub fn new() -> (r: MovementInput)
        ensures
            r == (MovementInput {
                forward: false,
                backward: false,
                left: false,
                right: false,
                up: false,
                down: false,
                sprinting: false,
                should_roll: false,
                delta_yaw: 0u32,
                delta_pitch: 0u32,
            }),
    {
        MovementInput {
            forward: false,
            backward: false,
            left: false,
            right: false,
            up: false,
            down: false,
            sprinting: false,
            should_roll: false,
            delta_yaw: 0,
            delta_pitch: 0,
        }
    }

    /// Clears the one-shot movement input for the next frame; the roll-mode
    /// toggle is held state and survives.
    pub fn new_frame(&mut self)
        ensures
            *final(self) == (MovementInput {
                forward: false,
                backward: false,
                left: false,
                right: false,
                up: false,
                down: false,
                sprinting: false,
                delta_yaw: 0u32,
                delta_pitch: 0u32,
                ..*old(self)
            }),
    {
        self.forward = false;
        self.backward = false;
        self.left = false;
        self.right = false;
        self.up = false;
        self.down = false;
        self.sprinting = false;
        self.delta_yaw = 0;
        self.delta_pitch = 0;
    }
}

/// The frame resource holding the movement input injected into a tick.
pub struct MovementInputResource {
    pub movement_input: MovementInput,
}

impl MovementInputResource {
    pub fn new() -> (r: MovementInputResource)
        ensures
            r.movement_input == MovementInput::spec_cleared(),
    {
        MovementInputResource { movement_input: MovementInput::new() }
    }
}

/// The movement direction built from the input flags with XOR pairing: a
/// basis vector contributes only when exactly one flag of its opposite pair
/// is set (the positive one adds the basis vector, the negative one its
/// negation); a pair of equal flags contributes nothing.
pub open spec fn spec_move_dir(
    input: MovementInput,
    forward: Vec3,
    right: Vec3,
    up: Vec3,
) -> Vec3 {
    let with_forward = if input.forward != input.backward {
        vadd3(
            Vec3 { x: 0u32, y: 0u32, z: 0u32 },
            if input.forward {
                forward
            } else {
                vneg3(forward)
            },
        )
    } else {
        Vec3 { x: 0u32, y: 0u32, z: 0u32 }
    };
    let with_right = if input.left != input.right {
        vadd3(
            with_forward,
            if input.right {
                right
            } else {
                vneg3(right)
            },
        )
    } else {
        with_forward
    };
    if input.up != input.down {
        vadd3(
            with_right,
            if input.up {
                up
            } else {
                vneg3(up)
            },
        )
    } else {
        with_right
    }
}

/// The XOR-move law: a pair of equal opposite flags is excluded from the
/// movement direction entirely, as if both flags were clear; with all three
/// pairs equal the direction is the zero vector.
pub proof fn lemma_move_dir_excludes_equal_pairs(
    input: MovementInput,
    forward: Vec3,
    right: Vec3,
    up: Vec3,
)
    ensures
        input.forward == input.backward ==> spec_move_dir(input, forward, right, up)
            == spec_move_dir(
            MovementInput { forward: false, backward: false, ..input },
            forward,
            right,
            up,
        ),
        input.left == input.right ==> spec_move_dir(input, forward, right, up) == spec_move_dir(
            MovementInput { left: false, right: false, ..input },
            forward,
            right,
            up,
        ),
        input.up == input.down ==> spec_move_dir(input, forward, right, up) == spec_move_dir(
            MovementInput { up: false, down: false, ..input },
            forward,
            right,
            up,
        ),
        input.forward == input.backward && input.left == input.right && input.up == input.down
            ==> spec_move_dir(input, forward, right, up) == (Vec3 { x: 0u32, y: 0u32, z: 0u32 }),
{
}

/// What the flying-camera system does to one matched entity (one holding
/// rotation, velocity and camera components and the flying-camera marker):
/// the look deltas turn into yaw/pitch (or roll in roll mode), the
/// quaternion is rebuilt as Euler Z-Y-X of (roll, yaw, pitch), and the
/// velocity becomes the movement direction scaled by the sprint factor. An
/// unmatched entity is untouched.
pub open spec fn spec_flying_step(e: EntityComponents, input: MovementInput) -> EntityComponents {
    if e.rotation is Some && e.velocity is Some && e.camera is Some && e.flying_camera is Some {
        let rot0 = e.rotation.unwrap();
        let cam = e.camera.unwrap();
        let yaw = if !input.should_roll {
            fadd_bits(rot0.yaw, input.delta_yaw)
        } else {
            rot0.yaw
        };
        let pitch = if !input.should_roll {
            fadd_bits(rot0.pitch, input.delta_pitch)
        } else {
            rot0.pitch
        };
        let roll = if input.should_roll {
            fadd_bits(rot0.roll, input.delta_yaw)
        } else {
            rot0.roll
        };
        let quaternion = qeuler_zyx(roll, yaw, pitch);
        let forward = qrot3(quaternion, cam.forward_axis);
        let up = qrot3(quaternion, cam.up_axis);
        let right = vcross3(up, forward);
        let move_dir = spec_move_dir(input, forward, right, up);
        let factor = if input.sprinting {
            TWO_F32
        } else {
            ONE_F32
        };
        EntityComponents {
            rotation: Some(RotationComponent { yaw, pitch, roll, quaternion }),
            velocity: Some(VelocityComponent {
                velocity: vmul3(move_dir, Vec3 { x: factor, y: factor, z: factor }),
            }),
            ..e
        }
    } else {
        e
    }
}

/// What the integrator does to one entity holding velocity and position:
/// position becomes position + velocity * delta-time, componentwise. An
/// entity missing either component is untouched.
pub open spec fn spec_integrate_step(e: EntityComponents, delta_time: u32) -> EntityComponents {
    if e.velocity is Some && e.position is Some {
        EntityComponents {
            position: Some(PositionComponent {
                position: vadd3(
                    e.position.unwrap().position,
                    vmul3(
                        e.velocity.unwrap().velocity,
                        Vec3 { x: delta_time, y: delta_time, z: delta_time },
                    ),
                ),
            }),
            ..e
        }
    } else {
        e
    }
}

/// What one ECS tick does to the component storages: the flying-camera
/// system runs first, then the integrator, each over all entities.
pub open spec fn spec_tick_components(
    components: Seq<EntityComponents>,
    delta_time: u32,
    input: MovementInput,
) -> Seq<EntityComponents> {
    components.map_values(
        |e: EntityComponents| spec_integrate_step(spec_flying_step(e, input), delta_time),
    )
}

/// The system turning movement input into rotation and velocity, gated by
/// the flying-camera marker. It runs before the integrator.
pub struct FlyingCameraSystem;

impl FlyingCameraSystem {
    /// One step over a single entity.
    fn entity_step(e: &mut EntityComponents, movement_input: &MovementInput)
        ensures
            *final(e) == spec_flying_step(*old(e), *movement_input),
    {
        if e.rotation.is_some() && e.velocity.is_some() && e.camera.is_some()
            && e.flying_camera.is_some() {
            let mut rotation = e.rotation.unwrap();
            let camera = e.camera.unwrap();

            // Rotate the camera.
            if !movement_input.should_roll {
                rotation.yaw = fadd(rotation.yaw, movement_input.delta_yaw);
                rotation.pitch = fadd(rotation.pitch, movement_input.delta_pitch);
            } else {
                rotation.roll = fadd(rotation.roll, movement_input.delta_yaw);
            }
            rotation.quaternion = quat_from_euler_zyx(rotation.roll, rotation.yaw, rotation.pitch);

            // Add movement input to the velocity.
            let forward = quat_rotate(rotation.quaternion, camera.forward_axis);
            let up = quat_rotate(rotation.quaternion, camera.up_axis);
            let right = vec3_cross(up, forward);

            let mut move_dir = Vec3::zero();
            if movement_input.forward != movement_input.backward {
                move_dir = vec3_add(
                    move_dir,
                    if movement_input.forward {
                        forward
                    } else {
                        vec3_neg(forward)
                    },
                );
            }
            if movement_input.left != movement_input.right {
                move_dir = vec3_add(
                    move_dir,
                    if movement_input.right {
                        right
                    } else {
                        vec3_neg(right)
                    },
                );
            }
            if movement_input.up != movement_input.down {
                move_dir = vec3_add(
                    move_dir,
                    if movement_input.up {
                        up
                    } else {
                        vec3_neg(up)
                    },
                );
            }

            let factor: u32 = if movement_input.sprinting {
                TWO_F32
            } else {
                ONE_F32
            };
            let velocity = vec3_mul(move_dir, Vec3 { x: factor, y: factor, z: factor });

            e.rotation = Some(rotation);
            e.velocity = Some(VelocityComponent { velocity });
        }
    }

    /// Runs the system over every entity.
    pub fn run(components: &mut Vec<EntityComponents>, movement_input: &MovementInput)
        ensures
            final(components)@.len() == old(components)@.len(),
            forall|j: int|
                0 <= j < old(components)@.len() ==> #[trigger] final(components)@[j]
                    == spec_flying_step(old(components)@[j], *movement_input),
    {
        let mut i: usize = 0;
        while i < components.len()
            invariant
                i <= components@.len(),
                components@.len() == old(components)@.len(),
                forall|j: int|
                    0 <= j < i ==> #[trigger] components@[j] == spec_flying_step(
                        old(components)@[j],
                        *movement_input,
                    ),
                forall|j: int|
                    i <= j < old(components)@.len() ==> #[trigger] components@[j] == old(
                        components,
                    )@[j],
            decreases components@.len() - i,
        {
            let mut e = components[i];
            FlyingCameraSystem::entity_step(&mut e, movement_input);
            components.set(i, e);
            i += 1;
        }
    }
}

/// The explicit Newtonian integrator: position += velocity * delta-time for
/// every entity holding both components. It runs after the flying-camera
/// system.
pub struct NewtonianExplicitIntegratorSystem;

impl NewtonianExplicitIntegratorSystem {
    /// Runs the integrator over every entity.
    pub fn run(components: &mut Vec<EntityComponents>, delta_time: u32)
        ensures
            final(components)@.len() == old(components)@.len(),
            forall|j: int|
                0 <= j < old(components)@.len() ==> #[trigger] final(components)@[j]
                    == spec_integrate_step(old(components)@[j], delta_time),
    {
        let mut i: usize = 0;
        while i < components.len()
            invariant
                i <= components@.len(),
                components@.len() == old(components)@.len(),
                forall|j: int|
                    0 <= j < i ==> #[trigger] components@[j] == spec_integrate_step(
                        old(components)@[j],
                        delta_time,
                    ),
                forall|j: int|
                    i <= j < old(components)@.len() ==> #[trigger] components@[j] == old(
                        components,
                    )@[j],
            decreases components@.len() - i,
        {
            let mut e = components[i];
            if e.velocity.is_some() && e.position.is_some() {
                let velocity = e.velocity.unwrap().velocity;
                let scaled = vec3_mul(
                    velocity,
                    Vec3 { x: delta_time, y: delta_time, z: delta_time },
                );
                e.position = Some(PositionComponent {
                    position: vec3_add(e.position.unwrap().position, scaled),
                });
            }
            components.set(i, e);
            i += 1;
        }
    }
}

/// A type used to reference a wrapped entity in the world.
pub type ECSEntityHandle = u64;

/// The wrapper mapping an application-side handle to the entity's component
/// storage and the render node the entity owns. The render node never points
/// back to the entity.
#[derive(Clone, Copy, Debug)]
pub struct CameraEntity {
    /// The handle of the camera render node this entity owns.
    pub camera_render_node_handle: RenderNodeHandle,
    /// The entity's identity: its index into the world's component storage.
    pub entity_index: usize,
}

/// A wrapped entity of the world. The entity kinds the engine knows are a
/// closed set, carried by a tagged variant rather than runtime dispatch.
#[derive(Clone, Copy, Debug)]
pub enum ECSEntity {
    Camera(CameraEntity),
}

impl ECSEntity {
    /// The handle of the render node the entity owns.
    pub open spec fn spec_render_node_handle(self) -> RenderNodeHandle {
        match self {
            ECSEntity::Camera(entity) => entity.camera_render_node_handle,
        }
    }

    /// The entity's index into the world's component storage.
    pub open spec fn spec_entity_index(self) -> int {
        match self {
            ECSEntity::Camera(entity) => entity.entity_index as int,
        }
    }

    /// The handle of the render node the entity owns, if it owns one.
    pub fn get_render_node(&self) -> (r: Option<RenderNodeHandle>)
        ensures
            r == Some(self.spec_render_node_handle()),
    {
        match self {
            ECSEntity::Camera(entity) => entity.get_render_node(),
        }
    }
}

/// What the bridge does to the render node an entity owns: the entity's
/// position, quaternion and field of view are copied onto the camera through
/// its setters, in that order; the setters are idempotent, so only real
/// changes raise the camera's dirty flag.
pub open spec fn spec_bridged(node: RenderNode, e: EntityComponents) -> RenderNode {
    match node {
        RenderNode::Camera(n) => RenderNode::Camera(
            CameraRenderNode {
                camera: n.camera.spec_set_position(e.position.unwrap().position)
                    .spec_set_rotation(e.rotation.unwrap().quaternion)
                    .spec_set_fov(e.camera.unwrap().fov),
                ..n
            },
        ),
    }
}

impl CameraEntity {
    /// The handle of the render node this entity owns.
    pub fn get_render_node(&self) -> (r: Option<RenderNodeHandle>)
        ensures
            r == Some(self.camera_render_node_handle),
    {
        Some(self.camera_render_node_handle)
    }

    /// The bridge step for this entity: copies the entity's current
    /// position, rotation and field of view onto the camera render node it
    /// owns.
    pub fn update_render_node(
        &self,
        components: &Vec<EntityComponents>,
        render_scene: &mut RenderScene,
    )
        requires
            self.entity_index < components@.len(),
            components@[self.entity_index as int].position is Some,
            components@[self.entity_index as int].rotation is Some,
            components@[self.entity_index as int].camera is Some,
            old(render_scene).wf(),
            old(render_scene).spec_has_node(self.camera_render_node_handle),
        ensures
            final(render_scene).wf(),
            final(render_scene).next_handle == old(render_scene).next_handle,
            final(render_scene).cameras == old(render_scene).cameras,
            final(render_scene).static_render_state == old(render_scene).static_render_state,
            final(render_scene).nodes@.len() == old(render_scene).nodes@.len(),
            forall|j: int|
                0 <= j < old(render_scene).nodes@.len() ==> (
                #[trigger] final(render_scene).nodes@[j]).0 == old(render_scene).nodes@[j].0,
            forall|j: int|
                0 <= j < old(render_scene).nodes@.len() && old(render_scene).nodes@[j].0
                    == self.camera_render_node_handle ==> (
                #[trigger] final(render_scene).nodes@[j]).1 == spec_bridged(
                    old(render_scene).nodes@[j].1,
                    components@[self.entity_index as int],
                ),
            forall|j: int|
                0 <= j < old(render_scene).nodes@.len() && old(render_scene).nodes@[j].0
                    != self.camera_render_node_handle ==> (
                #[trigger] final(render_scene).nodes@[j]).1 == old(render_scene).nodes@[j].1,
    {
        let e = components[self.entity_index];
        let position = e.position.unwrap().position;
        let rotation = e.rotation.unwrap().quaternion;
        let camera_data = e.camera.unwrap();

        match render_scene.find_node_index(self.camera_render_node_handle) {
            Some(i) => {
                let (h, node) = render_scene.nodes[i];
                match node {
                    RenderNode::Camera(mut camera_render_node) => {
                        camera_render_node.set_position(position);
                        camera_render_node.set_rotation(rotation);
                        camera_render_node.set_fov(camera_data.fov);
                        render_scene.nodes.set(i, (h, RenderNode::Camera(camera_render_node)));
                    },
                }
            },
            None => {
                proof {
                    assert(false);
                }
            },
        }

        proof {
            assert forall|i: int|
                0 <= i < render_scene.cameras@.len() implies render_scene.spec_has_node(
                #[trigger] render_scene.cameras@[i],
            ) by {
                let h = render_scene.cameras@[i];
                let w = choose|w: int|
                    0 <= w < old(render_scene).nodes@.len() && (#[trigger] old(
                        render_scene,
                    ).nodes@[w]).0 == h;
                assert(render_scene.nodes@[w].0 == h);
            }
            assert forall|i: int, j: int|
                0 <= i < j < render_scene.nodes@.len() implies (
                #[trigger] render_scene.nodes@[i]).1.spec_buffer_index() != (
                #[trigger] render_scene.nodes@[j]).1.spec_buffer_index() by {
                assert(render_scene.nodes@[i].1.spec_buffer_index() == old(
                    render_scene,
                ).nodes@[i].1.spec_buffer_index());
                assert(render_scene.nodes@[j].1.spec_buffer_index() == old(
                    render_scene,
                ).nodes@[j].1.spec_buffer_index());
            }
        }
    }
}

pub struct ECSWorld {
    /// The per-entity component storage; an entity's identity is its index.
    pub components: Vec<EntityComponents>,
    /// The delta-time frame resource (a scalar word, seconds).
    pub delta_time: u32,
    /// The movement-input frame resource.
    pub movement_input: MovementInputResource,
    /// The wrapped entities with their handles, in insertion order.
    pub ecs_entities: Vec<(ECSEntityHandle, ECSEntity)>,
    /// The handles of the camera entities; the first is the primary camera.
    pub camera_handles: Vec<ECSEntityHandle>,
    /// The next handle to allocate, starting at 1.
    pub next_entity_handle: ECSEntityHandle,
}

impl ECSWorld {
    /// Whether some wrapped entity carries the given handle.
    pub open spec fn spec_has_entity(self, handle: ECSEntityHandle) -> bool {
        exists|i: int|
            0 <= i < self.ecs_entities@.len() && (#[trigger] self.ecs_entities@[i]).0 == handle
    }

    /// The world's well-formedness: handles are unique, below the allocation
    /// counter and at least 1; every camera handle refers to a wrapped
    /// entity; and every wrapper's entity index refers into the component
    /// storage.
    pub open spec fn wf(self) -> bool {
        &&& 1 <= self.next_entity_handle
        &&& forall|i: int, j: int|
            0 <= i < j < self.ecs_entities@.len() ==> (#[trigger] self.ecs_entities@[i]).0 != (
            #[trigger] self.ecs_entities@[j]).0
        &&& forall|i: int|
            0 <= i < self.ecs_entities@.len() ==> 1 <= (#[trigger] self.ecs_entities@[i]).0
                < self.next_entity_handle
        &&& forall|i: int|
            0 <= i < self.camera_handles@.len() ==> self.spec_has_entity(
                #[trigger] self.camera_handles@[i],
            )
        &&& forall|i: int|
            0 <= i < self.ecs_entities@.len() ==> 0 <= (
            #[trigger] self.ecs_entities@[i]).1.spec_entity_index() < self.components@.len()
    }

    pub fn new() -> (r: ECSWorld)
        ensures
            r.components@ == Seq::<EntityComponents>::empty(),
            r.delta_time == 0u32,
            r.movement_input.movement_input == MovementInput::spec_cleared(),
            r.ecs_entities@ == Seq::<(ECSEntityHandle, ECSEntity)>::empty(),
            r.camera_handles@ == Seq::<ECSEntityHandle>::empty(),
            r.next_entity_handle == 1,
            r.wf(),
    {
        ECSWorld {
            components: Vec::new(),
            delta_time: 0,
            movement_input: MovementInputResource::new(),
            ecs_entities: Vec::new(),
            camera_handles: Vec::new(),
            next_entity_handle: 1,
        }
    }

    /// The index of the wrapped entity carrying the given handle, if any.
    fn find_entity_index(&self, handle: ECSEntityHandle) -> (r: Option<usize>)
        ensures
            match r {
                Some(i) => i < self.ecs_entities@.len() && self.ecs_entities@[i as int].0
                    == handle,
                None => !self.spec_has_entity(handle),
            },
    {
        let mut i: usize = 0;
        while i < self.ecs_entities.len()
            invariant
                i <= self.ecs_entities@.len(),
                forall|j: int| 0 <= j < i ==> (#[trigger] self.ecs_entities@[j]).0 != handle,
            decreases self.ecs_entities@.len() - i,
        {
            if self.ecs_entities[i].0 == handle {
                return Some(i);
            }
            i += 1;
        }
        None
    }

    /// One tick of the world: updates the frame resources, dispatches the
    /// flying-camera system and then the integrator over all entities, and
    /// finally bridges every wrapped entity's state onto the render node it
    /// owns.
    pub fn update(
        &mut self,
        delta_time: u64,
        movement_input: MovementInput,
        render_scene: &mut RenderScene,
    )
        requires
            old(self).wf(),
            old(render_scene).wf(),
            forall|i: int|
                0 <= i < old(self).ecs_entities@.len() ==> old(render_scene).spec_has_node(
                    (#[trigger] old(self).ecs_entities@[i]).1.spec_render_node_handle(),
                ),
            forall|i: int, j: int|
                0 <= i < j < old(self).ecs_entities@.len() ==> (#[trigger] old(
                    self,
                ).ecs_entities@[i]).1.spec_render_node_handle() != (#[trigger] old(
                    self,
                ).ecs_entities@[j]).1.spec_render_node_handle(),
            forall|i: int|
                0 <= i < old(self).ecs_entities@.len() ==> old(self).components@[(#[trigger] old(
                    self,
                ).ecs_entities@[i]).1.spec_entity_index()].position is Some && old(
                    self,
                ).components@[old(self).ecs_entities@[i].1.spec_entity_index()].rotation is Some
                    && old(self).components@[old(
                    self,
                ).ecs_entities@[i].1.spec_entity_index()].camera is Some,
        ensures
            final(self).wf(),
            final(self).delta_time == narrow_bits(delta_time),
            final(self).movement_input.movement_input == movement_input,
            final(self).components@ == spec_tick_components(
                old(self).components@,
                narrow_bits(delta_time),
                movement_input,
            ),
            final(self).ecs_entities == old(self).ecs_entities,
            final(self).camera_handles == old(self).camera_handles,
            final(self).next_entity_handle == old(self).next_entity_handle,
            final(render_scene).wf(),
            final(render_scene).next_handle == old(render_scene).next_handle,
            final(render_scene).cameras == old(render_scene).cameras,
            final(render_scene).static_render_state == old(render_scene).static_render_state,
            final(render_scene).nodes@.len() == old(render_scene).nodes@.len(),
            forall|j: int|
                0 <= j < old(render_scene).nodes@.len() ==> (
                #[trigger] final(render_scene).nodes@[j]).0 == old(render_scene).nodes@[j].0,
            forall|i: int, j: int|
                0 <= i < old(self).ecs_entities@.len() && 0 <= j < old(
                    render_scene,
                ).nodes@.len() && old(render_scene).nodes@[j].0 == (#[trigger] old(
                    self,
                ).ecs_entities@[i]).1.spec_render_node_handle() ==> (
                #[trigger] final(render_scene).nodes@[j]).1 == spec_bridged(
                    old(render_scene).nodes@[j].1,
                    final(self).components@[old(self).ecs_entities@[i].1.spec_entity_index()],
                ),
            forall|j: int|
                0 <= j < old(render_scene).nodes@.len() && (forall|i: int|
                    0 <= i < old(self).ecs_entities@.len() ==> (#[trigger] old(
                        self,
                    ).ecs_entities@[i]).1.spec_render_node_handle() != old(
                        render_scene,
                    ).nodes@[j].0) ==> (#[trigger] final(render_scene).nodes@[j]).1 == old(
                    render_scene,
                ).nodes@[j].1,
    {
        // Update the frame resources.
        self.delta_time = narrow(delta_time);
        self.movement_input = MovementInputResource { movement_input };

        // Dispatch the fixed pipeline: the flying-camera system first, the
        // integrator ordered after it.
        FlyingCameraSystem::run(&mut self.components, &movement_input);
        NewtonianExplicitIntegratorSystem::run(&mut self.components, self.delta_time);
        proof {
            assert(self.components@ =~= spec_tick_components(
                old(self).components@,
                narrow_bits(delta_time),
                movement_input,
            ));
        }

        // Bridge: copy each wrapped entity's state onto its render node.
        let mut i: usize = 0;
        while i < self.ecs_entities.len()
            invariant
                old(self).wf(),
                old(render_scene).wf(),
                forall|k: int|
                    0 <= k < old(self).ecs_entities@.len() ==> old(render_scene).spec_has_node(
                        (#[trigger] old(self).ecs_entities@[k]).1.spec_render_node_handle(),
                    ),
                forall|k: int, l: int|
                    0 <= k < l < old(self).ecs_entities@.len() ==> (#[trigger] old(
                        self,
                    ).ecs_entities@[k]).1.spec_render_node_handle() != (#[trigger] old(
                        self,
                    ).ecs_entities@[l]).1.spec_render_node_handle(),
                i <= old(self).ecs_entities@.len(),
                self.components@ == spec_tick_components(
                    old(self).components@,
                    narrow_bits(delta_time),
                    movement_input,
                ),
                self.components@.len() == old(self).components@.len(),
                forall|k: int|
                    0 <= k < old(self).ecs_entities@.len() ==> self.components@[(#[trigger] old(
                        self,
                    ).ecs_entities@[k]).1.spec_entity_index()].position is Some
                        && self.components@[old(
                        self,
                    ).ecs_entities@[k].1.spec_entity_index()].rotation is Some
                        && self.components@[old(
                        self,
                    ).ecs_entities@[k].1.spec_entity_index()].camera is Some,
                self.delta_time == narrow_bits(delta_time),
                self.movement_input.movement_input == movement_input,
                self.ecs_entities == old(self).ecs_entities,
                self.camera_handles == old(self).camera_handles,
                self.next_entity_handle == old(self).next_entity_handle,
                render_scene.wf(),
                render_scene.next_handle == old(render_scene).next_handle,
                render_scene.cameras == old(render_scene).cameras,
                render_scene.static_render_state == old(render_scene).static_render_state,
                render_scene.nodes@.len() == old(render_scene).nodes@.len(),
                forall|j: int|
                    0 <= j < old(render_scene).nodes@.len() ==> (
                    #[trigger] render_scene.nodes@[j]).0 == old(render_scene).nodes@[j].0,
                forall|k: int, j: int|
                    0 <= k < i && 0 <= j < old(render_scene).nodes@.len() && old(
                        render_scene,
                    ).nodes@[j].0 == (#[trigger] old(
                        self,
                    ).ecs_entities@[k]).1.spec_render_node_handle() ==> (
                    #[trigger] render_scene.nodes@[j]).1 == spec_bridged(
                        old(render_scene).nodes@[j].1,
                        self.components@[old(self).ecs_entities@[k].1.spec_entity_index()],
                    ),
                forall|j: int|
                    0 <= j < old(render_scene).nodes@.len() && (forall|k: int|
                        0 <= k < i ==> (#[trigger] old(
                            self,
                        ).ecs_entities@[k]).1.spec_render_node_handle() != old(
                            render_scene,
                        ).nodes@[j].0) ==> (#[trigger] render_scene.nodes@[j]).1 == old(
                        render_scene,
                    ).nodes@[j].1,
            decreases self.ecs_entities@.len() - i,
        {
            let (_, entity) = self.ecs_entities[i];
            match entity {
                ECSEntity::Camera(camera_entity) => {
                    proof {
                        let h = camera_entity.camera_render_node_handle;
                        let w = choose|w: int|
                            0 <= w < old(render_scene).nodes@.len() && (#[trigger] old(
                                render_scene,
                            ).nodes@[w]).0 == h;
                        assert(render_scene.nodes@[w].0 == h);
                    }
                    camera_entity.update_render_node(&self.components, render_scene);
                },
            }
            i += 1;
        }
    }

    /// Inserts a wrapped entity under the next handle; a camera entity's
    /// handle is also appended to the camera list. Returns the handle.
    pub fn add_entity(&mut self, entity: ECSEntity) -> (r: ECSEntityHandle)
        requires
            old(self).wf(),
            old(self).next_entity_handle < 0xffff_ffff_ffff_ffffu64,
            0 <= entity.spec_entity_index() < old(self).components@.len(),
        ensures
            final(self).wf(),
            r == old(self).next_entity_handle,
            final(self).next_entity_handle == old(self).next_entity_handle + 1,
            final(self).ecs_entities@ == old(self).ecs_entities@.push((r, entity)),
            final(self).camera_handles@ == old(self).camera_handles@.push(r),
            final(self).components == old(self).components,
            final(self).delta_time == old(self).delta_time,
            final(self).movement_input == old(self).movement_input,
    {
        match &entity {
            ECSEntity::Camera(_) => {
                self.camera_handles.push(self.next_entity_handle);
            },
        }
        let entity_handle = self.next_entity_handle;
        self.ecs_entities.push((entity_handle, entity));
        self.next_entity_handle = self.next_entity_handle + 1;
        proof {
            assert forall|i: int|
                0 <= i < self.camera_handles@.len() implies self.spec_has_entity(
                #[trigger] self.camera_handles@[i],
            ) by {
                if i < old(self).camera_handles@.len() {
                    let h = self.camera_handles@[i];
                    let w = choose|k: int|
                        0 <= k < old(self).ecs_entities@.len() && (#[trigger] old(
                            self,
                        ).ecs_entities@[k]).0 == h;
                    assert(self.ecs_entities@[w].0 == h);
                } else {
                    assert(self.ecs_entities@[self.ecs_entities@.len() - 1].0
                        == self.camera_handles@[i]);
                }
            }
        }
        entity_handle
    }

    /// A copy of the wrapped entity carrying the given handle, or absent
    /// when no entity does.
    pub fn get_entity(&self, entity_handle: &ECSEntityHandle) -> (r: Option<ECSEntity>)
        ensures
            match r {
                Some(entity) => exists|i: int|
                    0 <= i < self.ecs_entities@.len() && #[trigger] self.ecs_entities@[i] == (
                    *entity_handle,
                    entity,
                    ),
                None => !self.spec_has_entity(*entity_handle),
            },
    {
        match self.find_entity_index(*entity_handle) {
            Some(i) => {
                let (_, entity) = self.ecs_entities[i];
                Some(entity)
            },
            None => None,
        }
    }

    /// The handles of the camera entities, in insertion order.
    pub fn get_cameras(&self) -> (r: &Vec<ECSEntityHandle>)
        ensures
            r@ == self.camera_handles@,
    {
        &self.camera_handles
    }

    /// The primary camera: the first camera entity inserted into the world.
    pub fn get_primary_camera(&self) -> (r: Option<ECSEntityHandle>)
        ensures
            self.camera_handles@.len() == 0 ==> r is None,
            self.camera_handles@.len() > 0 ==> r == Some(self.camera_handles@[0]),
    {
        if self.camera_handles.len() > 0 {
            Some(self.camera_handles[0])
        } else {
            None
        }
    }
}

/// The rotation a flying camera is seeded with: the rotation carrying the
/// configured forward axis onto the initial direction. A direction equal to
/// the forward axis (dot within machine epsilon of 1) gives the identity; an
/// opposite direction (dot within epsilon of -1) gives a half turn about the
/// up axis; anything else rotates by the angle between them about their
/// normalized cross product.
pub open spec fn spec_initial_rotation(
    direction: Vec3,
    forward_axis: Vec3,
    up_axis: Vec3,
) -> Quat {
    let dot = vdot_bits(direction.bits(), forward_axis.bits());
    if flt_bits(fabs_bits(fsub_bits(dot, ONE_F32)), EPSILON_F32) {
        Quat { x: 0u32, y: 0u32, z: 0u32, w: ONE_F32 }
    } else if flt_bits(fabs_bits(fadd_bits(dot, ONE_F32)), EPSILON_F32) {
        qaxis_angle(up_axis, PI_F32)
    } else {
        qaxis_angle(vnormalize3(vcross3(forward_axis, direction)), facos_bits(dot))
    }
}

/// The component storage a flying-camera entity is created with.
pub open spec fn spec_flying_camera_components(
    position: Vec3,
    direction: Vec3,
    forward_axis: Vec3,
    up_axis: Vec3,
    fov: u32,
) -> EntityComponents {
    let rotation = spec_initial_rotation(direction, forward_axis, up_axis);
    let euler = quat_to_euler_yxz_bits(rotation.bits());
    EntityComponents {
        position: Some(PositionComponent { position }),
        velocity: Some(VelocityComponent { velocity: Vec3 { x: 0u32, y: 0u32, z: 0u32 } }),
        rotation: Some(RotationComponent {
            yaw: euler[0],
            pitch: euler[1],
            roll: euler[2],
            quaternion: rotation,
        }),
        camera: Some(CameraComponent { forward_axis, up_axis, fov }),
        flying_camera: Some(FlyingCameraComponent),
    }
}

impl CameraEntity {
    /// Creates a flying-camera entity: seeds its components (position, zero
    /// velocity, the initial rotation with its Euler angles, the camera
    /// configuration and the flying-camera marker), creates its camera
    /// render node in the scene, and inserts the wrapped entity into the
    /// world. Returns the entity's handle.
    pub fn add_flying(
        ecs_world: &mut ECSWorld,
        render_scene: &mut RenderScene,
        position: Vec3,
        direction: Vec3,
        forward_axis: Vec3,
        up_axis: Vec3,
        fov: u32,
        near: u32,
        far: Option<u32>,
        aspect: u32,
    ) -> (r: ECSEntityHandle)
        requires
            old(ecs_world).wf(),
            old(render_scene).wf(),
            old(ecs_world).next_entity_handle < 0xffff_ffff_ffff_ffffu64,
            old(render_scene).next_handle < 0xffff_ffff_ffff_ffffu64,
        ensures
            final(ecs_world).wf(),
            final(render_scene).wf(),
            r == old(ecs_world).next_entity_handle,
            final(ecs_world).next_entity_handle == old(ecs_world).next_entity_handle + 1,
            final(ecs_world).components@ == old(ecs_world).components@.push(
                spec_flying_camera_components(position, direction, forward_axis, up_axis, fov),
            ),
            final(ecs_world).ecs_entities@ == old(ecs_world).ecs_entities@.push(
                (
                    r,
                    ECSEntity::Camera(CameraEntity {
                        camera_render_node_handle: old(render_scene).next_handle,
                        entity_index: old(ecs_world).components@.len() as usize,
                    }),
                ),
            ),
            final(ecs_world).camera_handles@ == old(ecs_world).camera_handles@.push(r),
            final(ecs_world).delta_time == old(ecs_world).delta_time,
            final(ecs_world).movement_input == old(ecs_world).movement_input,
            final(render_scene).next_handle == old(render_scene).next_handle + 1,
            final(render_scene).cameras@ == old(render_scene).cameras@.push(
                old(render_scene).next_handle,
            ),
            final(render_scene).nodes@.len() == old(render_scene).nodes@.len() + 1,
            forall|j: int|
                0 <= j < old(render_scene).nodes@.len() ==> (
                #[trigger] final(render_scene).nodes@[j]) == old(render_scene).nodes@[j],
            final(render_scene).nodes@.last().0 == old(render_scene).next_handle,
            match final(render_scene).nodes@.last().1 {
                RenderNode::Camera(n) => {
                    &&& n.buffer_index == old(render_scene).static_render_state.buffers@.len()
                    &&& !n.is_active_camera
                    &&& !n.dirty
                    &&& n.camera == PerspectiveCamera::spec_new(
                        position,
                        direction,
                        forward_axis,
                        up_axis,
                        fov,
                        near,
                        far,
                        aspect,
                        n.camera.camera_shader_state,
                    )
                    &&& n.camera.camera_shader_state.view_proj@
                        == crate::camera::identity_block_bits()
                },
            },
            final(render_scene).static_render_state.buffers@ == old(
                render_scene,
            ).static_render_state.buffers@.push(
                final(render_scene).nodes@.last().1.spec_block(),
            ),
            final(render_scene).static_render_state.bind_group_layouts@ == old(
                render_scene,
            ).static_render_state.bind_group_layouts@.push(
                crate::scene::BindGroupLayoutEntry {
                    binding: 0,
                    vertex_visible: true,
                    has_dynamic_offset: false,
                },
            ),
    {
        // Seed the rotation carrying the forward axis onto the direction.
        let dot = vec3_dot(direction, forward_axis);
        let rotation: Quat;
        if flt(fabs(fsub(dot, ONE_F32)), EPSILON_F32) {
            rotation = Quat { x: 0, y: 0, z: 0, w: ONE_F32 };
        } else if flt(fabs(fadd(dot, ONE_F32)), EPSILON_F32) {
            rotation = quat_from_axis_angle(up_axis, PI_F32);
        } else {
            let angle = facos(dot);
            let rot_axis = vec3_normalize(vec3_cross(forward_axis, direction));
            rotation = quat_from_axis_angle(rot_axis, angle);
        }

        let euler = quat_to_euler_yxz(rotation);

        let entity_index = ecs_world.components.len();
        ecs_world.components.push(EntityComponents {
            position: Some(PositionComponent { position }),
            velocity: Some(VelocityComponent { velocity: Vec3::zero() }),
            rotation: Some(RotationComponent {
                yaw: euler[0],
                pitch: euler[1],
                roll: euler[2],
                quaternion: rotation,
            }),
            camera: Some(CameraComponent { forward_axis, up_axis, fov }),
            flying_camera: Some(FlyingCameraComponent),
        });

        let camera = PerspectiveCamera::new(
            position,
            direction,
            forward_axis,
            up_axis,
            fov,
            near,
            far,
            aspect,
        );
        // Reading the count through the vector also bounds it for the slot
        // the new node takes.
        let _pre_buffer_count: usize = render_scene.static_render_state.buffers.len();
        let camera_node_handle = CameraRenderNode::add_new(camera, render_scene);
        proof {
            let n = render_scene.nodes@.len() - 1;
            assert(render_scene.nodes@.last() == render_scene.nodes@[n]);
            assert(render_scene.nodes@[n] == (
                camera_node_handle,
                RenderNode::Camera(CameraRenderNode {
                    camera,
                    buffer_index: old(render_scene).static_render_state.buffers@.len() as usize,
                    is_active_camera: false,
                    dirty: false,
                }),
            ));
        }
        let camera_entity = CameraEntity {
            camera_render_node_handle: camera_node_handle,
            entity_index,
        };
        ecs_world.add_entity(ECSEntity::Camera(camera_entity))
    }
}

} // verus!

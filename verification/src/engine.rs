//! The host-facing engine instance: lifecycle, per-frame orchestration and
//! input forwarding.
//!
//! The host owns the window, the GPU device and queue; the engine owns the
//! scene, the entity world, the render pipeline description and the input
//! aggregator. A frame flows host events -> input aggregator -> movement
//! input -> ECS dispatch -> bridge -> scene resolve-and-record, and what the
//! engine records (buffer contents, pass commands) is plain data the host
//! replays.

use vstd::prelude::*;

use crate::camera::CameraRenderNode;
use crate::camera::PerspectiveCamera;
use crate::camera::identity_block_bits;
use crate::ecs::CameraEntity;
use crate::ecs::ECSEntity;
use crate::ecs::ECSEntityHandle;
use crate::ecs::ECSWorld;
use crate::ecs::MovementInput;
use crate::ecs::spec_bridged;
use crate::ecs::spec_flying_camera_components;
use crate::ecs::spec_tick_components;
use crate::ecs::EntityComponents;
use crate::fbits::ONE_F32;
use crate::fbits::THOUSAND_F32;
use crate::fbits::Vec3;
use crate::fbits::fadd;
use crate::fbits::fadd_bits;
use crate::fbits::fdiv;
use crate::fbits::fdiv_bits;
use crate::fbits::narrow;
use crate::fbits::narrow_bits;
use crate::input::ElementState;
use crate::input::InputHandler;
use crate::scene::BindGroupLayoutEntry;
use crate::scene::RenderCallState;
use crate::scene::RenderCommand;
use crate::scene::RenderNode;
use crate::scene::RenderNodeHandle;
use crate::scene::RenderScene;
use crate::scene::StaticRenderState;
use crate::scene::bind_command_seq;

verus! {

/// The word of `70.0_f32`: the primary camera's field of view in degrees.
pub const FOV_70_F32: u32 = 0x428c_0000;

/// The word of `0.01_f32`: the primary camera's near plane.
pub const NEAR_001_F32: u32 = 0x3c23_d70a;

/// The word of `-5.0_f32`: the primary camera's starting z position.
pub const NEG_FIVE_F32: u32 = 0xc0a0_0000;

/// The key code of the forward key (W).
pub const KEY_W: u32 = 87;

/// The key code of the backward key (S).
pub const KEY_S: u32 = 83;

/// The key code of the left key (A).
pub const KEY_A: u32 = 65;

/// The key code of the right key (D).
pub const KEY_D: u32 = 68;

/// The key code of the up key (space).
pub const KEY_SPACE: u32 = 32;

/// The key code of the down key (left shift).
pub const KEY_LSHIFT: u32 = 160;

/// A mouse button, as the host reports it.
#[derive(Clone, Copy, Debug, PartialEq, Eq, Structural)]
pub enum MouseButton {
    Left,
    Right,
    Middle,
    Other,
}

/// A mouse-wheel delta, as the host reports it; the words are scalar bit
/// images.
#[derive(Clone, Copy, Debug, PartialEq, Eq, Structural)]
pub enum MouseScrollDelta {
    LineDelta { x: u32, y: u32 },
    PixelDelta { x: u32, y: u32 },
}

/// A touch phase, as the host reports it.
#[derive(Clone, Copy, Debug, PartialEq, Eq, Structural)]
pub enum TouchPhase {
    Started,
    Moved,
    Ended,
    Cancelled,
}

/// The engine's description of the main render pipeline the host builds:
/// it is laid out against the scene's accumulated bind-group layouts.
#[derive(Clone, Copy, Debug, PartialEq, Eq, Structural)]
pub struct RenderPipelineState {
    pub bind_group_layout_count: usize,
}

/// The engine's description of the pre-recorded triangle bundle: a plain
/// draw of three vertices, one instance.
#[derive(Clone, Copy, Debug, PartialEq, Eq, Structural)]
pub struct RenderBundleState {
    pub vertices: u32,
    pub instances: u32,
}

/// The state the engine holds once started.
pub struct EngineCoreState {
    pub render_pipeline: RenderPipelineState,
    pub triangle_render_bundle: RenderBundleState,
    pub render_scene: RenderScene,
    pub ecs_world: ECSWorld,
    pub input_handler: InputHandler,
}

impl EngineCoreState {
    /// The started state's well-formedness: the scene and the world are
    /// well-formed, the input aggregator is, every wrapped entity's render
    /// node exists in the scene, no two wrapped entities share a render
    /// node, and every wrapped entity's components carry position, rotation
    /// and camera.
    pub open spec fn wf(self) -> bool {
        &&& self.render_scene.wf()
        &&& self.ecs_world.wf()
        &&& self.input_handler.wf()
        &&& forall|i: int|
            0 <= i < self.ecs_world.ecs_entities@.len() ==> self.render_scene.spec_has_node(
                (#[trigger] self.ecs_world.ecs_entities@[i]).1.spec_render_node_handle(),
            )
        &&& forall|i: int, j: int|
            0 <= i < j < self.ecs_world.ecs_entities@.len() ==> (
            #[trigger] self.ecs_world.ecs_entities@[i]).1.spec_render_node_handle() != (
            #[trigger] self.ecs_world.ecs_entities@[j]).1.spec_render_node_handle()
        &&& forall|i: int|
            0 <= i < self.ecs_world.ecs_entities@.len()
                ==> self.ecs_world.components@[(#[trigger] self.ecs_world.ecs_entities@[i]).1.spec_entity_index()].position
                is Some && self.ecs_world.components@[self.ecs_world.ecs_entities@[i].1.spec_entity_index()].rotation
                is Some && self.ecs_world.components@[self.ecs_world.ecs_entities@[i].1.spec_entity_index()].camera
                is Some
    }

    /// The handle of the render node owned by the wrapped entity carrying
    /// the given handle, or absent when no entity does.
    pub fn get_render_node_handle_by_ecs_handle(&self, entity_handle: &ECSEntityHandle) -> (r:
        Option<RenderNodeHandle>)
        ensures
            match r {
                Some(node_handle) => exists|i: int|
                    0 <= i < self.ecs_world.ecs_entities@.len() && (
                    #[trigger] self.ecs_world.ecs_entities@[i]).0 == *entity_handle
                        && self.ecs_world.ecs_entities@[i].1.spec_render_node_handle()
                        == node_handle,
                None => !self.ecs_world.spec_has_entity(*entity_handle),
            },
    {
        match self.ecs_world.get_entity(entity_handle) {
            Some(entity) => entity.get_render_node(),
            None => None,
        }
    }
}

/// Whether the engine currently has focus; in editor hosting this tracks
/// whether the editor viewport has focus.
pub struct WindowState {
    pub has_focus: bool,
}

impl WindowState {
    pub fn new() -> (r: WindowState)
        ensures
            !r.has_focus,
    {
        WindowState { has_focus: false }
    }

    pub fn has_focus(&self) -> (r: bool)
        ensures
            r == self.has_focus,
    {
        self.has_focus
    }

    pub fn set_focus(&mut self, has_focus: bool)
        ensures
            *final(self) == (WindowState { has_focus }),
    {
        self.has_focus = has_focus;
    }
}

/// A viewport rectangle; the words are scalar bit images.
#[derive(Clone, Copy, Debug, PartialEq, Eq, Structural)]
pub struct ViewportRegion {
    pub x: u32,
    pub y: u32,
    pub width: u32,
    pub height: u32,
}

impl ViewportRegion {
    /// The empty viewport: all words zero.
    pub open spec fn spec_zero() -> ViewportRegion {
        ViewportRegion { x: 0u32, y: 0u32, width: 0u32, height: 0u32 }
    }

    /// The empty viewport: all words zero.
    pub fn zero() -> (r: ViewportRegion)
        ensures
            r == ViewportRegion::spec_zero(),
    {
        ViewportRegion { x: 0, y: 0, width: 0, height: 0 }
    }
}

/// The movement input after the pressed state of the bound keys has been
/// pulled from the primary keyboard; with no keyboard registered the input
/// is kept as it was.
pub open spec fn spec_pulled_input(input: MovementInput, handler: InputHandler) -> MovementInput {
    match handler.spec_primary() {
        Some(keyboard) => MovementInput {
            forward: keyboard.spec_is_pressed(KEY_W),
            backward: keyboard.spec_is_pressed(KEY_S),
            left: keyboard.spec_is_pressed(KEY_A),
            right: keyboard.spec_is_pressed(KEY_D),
            up: keyboard.spec_is_pressed(KEY_SPACE),
            down: keyboard.spec_is_pressed(KEY_LSHIFT),
            ..input
        },
        None => input,
    }
}

/// What the pre-render phase does to one render node before the scene's
/// resolve: the render camera's node is activated and every other listed
/// camera deactivated, then the bridge copies the owning entity's state
/// (when some wrapped entity owns the node).
pub open spec fn spec_pre_resolve_node(
    node: RenderNode,
    is_render_target: bool,
    in_camera_list: bool,
    bridged_with: Option<EntityComponents>,
) -> RenderNode {
    let activated = if is_render_target {
        node.spec_activated()
    } else if in_camera_list {
        node.spec_deactivated()
    } else {
        node
    };
    match bridged_with {
        Some(e) => spec_bridged(activated, e),
        None => activated,
    }
}

/// The host-facing engine instance.
pub struct EngineInstance {
    pub window_state: WindowState,
    /// The texture format of the host's surface, by the host's own code;
    /// the color target and the triangle bundle are built against it.
    pub surface_format: u32,
    /// The sample count of the color target; 1 means no multisampling.
    pub multisample_count: u32,
    /// The started state; absent until `start` has run.
    pub engine_core_state: Option<EngineCoreState>,
    /// The movement input being accumulated for the next frame.
    pub movement_input: MovementInput,
}

impl EngineInstance {
    /// The instance's well-formedness: once started, the core state is.
    pub open spec fn wf(self) -> bool {
        match self.engine_core_state {
            Some(state) => state.wf(),
            None => true,
        }
    }

    /// Constructs an engine for a host surface; the engine is not started.
    pub fn new(surface_format: u32) -> (r: EngineInstance)
        ensures
            !r.window_state.has_focus,
            r.surface_format == surface_format,
            r.multisample_count == 1,
            r.engine_core_state is None,
            r.movement_input == MovementInput::spec_cleared(),
            r.wf(),
    {
        EngineInstance {
            window_state: WindowState::new(),
            surface_format,
            multisample_count: 1,
            engine_core_state: None,
            movement_input: MovementInput::new(),
        }
    }

    /// Starts the engine: records the triangle bundle, creates the entity
    /// world and the render scene, inserts the primary flying-camera entity,
    /// and lays the render pipeline out against the accumulated bind-group
    /// layouts.
    pub fn start(&mut self)
        ensures
            final(self).window_state == old(self).window_state,
            final(self).surface_format == old(self).surface_format,
            final(self).multisample_count == old(self).multisample_count,
            final(self).movement_input == old(self).movement_input,
            final(self).wf(),
            match final(self).engine_core_state {
                Some(state) => {
                    &&& state.triangle_render_bundle == (RenderBundleState {
                        vertices: 3,
                        instances: 1,
                    })
                    &&& state.render_pipeline == (RenderPipelineState {
                        bind_group_layout_count: 1,
                    })
                    &&& state.input_handler.keyboard_input_handlers@.len() == 0
                    &&& state.ecs_world.next_entity_handle == 2
                    &&& state.ecs_world.delta_time == 0
                    &&& state.ecs_world.movement_input.movement_input
                        == MovementInput::spec_cleared()
                    &&& state.ecs_world.camera_handles@ == seq![1u64]
                    &&& state.ecs_world.ecs_entities@ == seq![
                        (
                            1u64,
                            ECSEntity::Camera(CameraEntity {
                                camera_render_node_handle: 1u64,
                                entity_index: 0usize,
                            }),
                        ),
                    ]
                    &&& state.ecs_world.components@ == seq![
                        spec_flying_camera_components(
                            Vec3 { x: 0u32, y: 0u32, z: NEG_FIVE_F32 },
                            Vec3 { x: 0u32, y: 0u32, z: ONE_F32 },
                            Vec3 { x: 0u32, y: 0u32, z: ONE_F32 },
                            Vec3 { x: 0u32, y: ONE_F32, z: 0u32 },
                            FOV_70_F32,
                        ),
                    ]
                    &&& state.render_scene.next_handle == 2
                    &&& state.render_scene.cameras@ == seq![1u64]
                    &&& state.render_scene.nodes@.len() == 1
                    &&& state.render_scene.nodes@[0].0 == 1u64
                    &&& match state.render_scene.nodes@[0].1 {
                        RenderNode::Camera(n) => {
                            &&& n.buffer_index == 0
                            &&& !n.is_active_camera
                            &&& !n.dirty
                            &&& n.camera == PerspectiveCamera::spec_new(
                                Vec3 { x: 0u32, y: 0u32, z: NEG_FIVE_F32 },
                                Vec3 { x: 0u32, y: 0u32, z: ONE_F32 },
                                Vec3 { x: 0u32, y: 0u32, z: ONE_F32 },
                                Vec3 { x: 0u32, y: ONE_F32, z: 0u32 },
                                FOV_70_F32,
                                NEAR_001_F32,
                                None,
                                ONE_F32,
                                n.camera.camera_shader_state,
                            )
                            &&& n.camera.camera_shader_state.view_proj@ == identity_block_bits()
                        },
                    }
                    &&& state.render_scene.static_render_state.buffers@.len() == 1
                    &&& state.render_scene.static_render_state.buffers@[0]
                        == state.render_scene.nodes@[0].1.spec_block()
                    &&& state.render_scene.static_render_state.bind_group_layouts@ == seq![
                        BindGroupLayoutEntry {
                            binding: 0,
                            vertex_visible: true,
                            has_dynamic_offset: false,
                        },
                    ]
                },
                None => false,
            },
    {
        // The triangle bundle: a plain three-vertex, one-instance draw,
        // recorded once against the surface format.
        let triangle_render_bundle = RenderBundleState { vertices: 3, instances: 1 };

        let mut ecs_world = ECSWorld::new();
        let mut render_scene = RenderScene::new(StaticRenderState::new());

        CameraEntity::add_flying(
            &mut ecs_world,
            &mut render_scene,
            Vec3 { x: 0, y: 0, z: NEG_FIVE_F32 },
            Vec3 { x: 0, y: 0, z: ONE_F32 },
            Vec3 { x: 0, y: 0, z: ONE_F32 },
            Vec3 { x: 0, y: ONE_F32, z: 0 },
            FOV_70_F32,
            NEAR_001_F32,
            None,
            ONE_F32,
        );

        // The pipeline is laid out against the scene's accumulated layouts.
        let render_pipeline = RenderPipelineState {
            bind_group_layout_count: render_scene.static_render_state.bind_group_layouts.len(),
        };

        proof {
            assert(ecs_world.camera_handles@ =~= seq![1u64]);
            assert(ecs_world.ecs_entities@ =~= seq![
                (
                    1u64,
                    ECSEntity::Camera(CameraEntity {
                        camera_render_node_handle: 1u64,
                        entity_index: 0usize,
                    }),
                ),
            ]);
            assert(ecs_world.components@ =~= seq![
                spec_flying_camera_components(
                    Vec3 { x: 0u32, y: 0u32, z: NEG_FIVE_F32 },
                    Vec3 { x: 0u32, y: 0u32, z: ONE_F32 },
                    Vec3 { x: 0u32, y: 0u32, z: ONE_F32 },
                    Vec3 { x: 0u32, y: ONE_F32, z: 0u32 },
                    FOV_70_F32,
                ),
            ]);
            assert(render_scene.cameras@ =~= seq![1u64]);
            assert(render_scene.static_render_state.bind_group_layouts@ =~= seq![
                BindGroupLayoutEntry { binding: 0, vertex_visible: true, has_dynamic_offset: false },
            ]);
        }

        self.engine_core_state = Some(EngineCoreState {
            render_pipeline,
            triangle_render_bundle,
            render_scene,
            ecs_world,
            input_handler: InputHandler::new(),
        });
    }

    /// Performs the pre-render phase: marks the render camera's node as the
    /// active camera (and all others inactive), pulls the bound keys from
    /// the primary keyboard into the movement input, dispatches the ECS
    /// tick with the bridge, and clears the one-shot movement input.
    /// `render_camera_ecs_handle` is the handle of the camera entity to
    /// render from.
    fn pre_render(&mut self, delta_time: u64, render_camera_ecs_handle: ECSEntityHandle)
        requires
            old(self).wf(),
            match old(self).engine_core_state {
                Some(state) => state.ecs_world.spec_has_entity(render_camera_ecs_handle),
                None => false,
            },
        ensures
            final(self).wf(),
            final(self).window_state == old(self).window_state,
            final(self).surface_format == old(self).surface_format,
            final(self).multisample_count == old(self).multisample_count,
            final(self).movement_input == (MovementInput {
                should_roll: old(self).movement_input.should_roll,
                ..MovementInput::spec_cleared()
            }),
            match (old(self).engine_core_state, final(self).engine_core_state) {
                (Some(s0), Some(s1)) => spec_pre_render_core(
                    s0,
                    s1,
                    spec_pulled_input(old(self).movement_input, s0.input_handler),
                    narrow_bits(delta_time),
                    render_camera_ecs_handle,
                ),
                _ => false,
            },
    {
        match &mut self.engine_core_state {
            Some(engine_state) => {
                let render_camera_node_handle: RenderNodeHandle = match engine_state
                    .get_render_node_handle_by_ecs_handle(&render_camera_ecs_handle) {
                    Some(node_handle) => node_handle,
                    None => {
                        proof {
                            assert(false);
                        }
                        0
                    },
                };

                // Mark the render camera as the active camera.
                proof {
                    let t = choose|t: int|
                        0 <= t < engine_state.ecs_world.ecs_entities@.len() && (
                        #[trigger] engine_state.ecs_world.ecs_entities@[t]).0
                            == render_camera_ecs_handle
                            && engine_state.ecs_world.ecs_entities@[t].1.spec_render_node_handle()
                            == render_camera_node_handle;
                    assert(engine_state.render_scene.spec_has_node(render_camera_node_handle));
                }
                engine_state.render_scene.set_active_camera(&render_camera_node_handle);

                // Pull the keyboard state into the movement input.
                {
                    match engine_state.input_handler.get_primary_keyboard() {
                        Some(keyboard) => {
                            self.movement_input.forward = keyboard.is_key_pressed(KEY_W);
                            self.movement_input.backward = keyboard.is_key_pressed(KEY_S);
                            self.movement_input.left = keyboard.is_key_pressed(KEY_A);
                            self.movement_input.right = keyboard.is_key_pressed(KEY_D);
                            self.movement_input.up = keyboard.is_key_pressed(KEY_SPACE);
                            self.movement_input.down = keyboard.is_key_pressed(KEY_LSHIFT);
                        },
                        None => {},
                    }
                }

                // The ECS tick, bridging onto the scene.
                proof {
                    assert forall|i: int|
                        0 <= i < engine_state.ecs_world.ecs_entities@.len()
                        implies engine_state.render_scene.spec_has_node(
                        (#[trigger] engine_state.ecs_world.ecs_entities@[i]).1.spec_render_node_handle(),
                    ) by {
                        let h =
                            engine_state.ecs_world.ecs_entities@[i].1.spec_render_node_handle();
                        let w = choose|w: int|
                            0 <= w < old(self).engine_core_state.unwrap().render_scene.nodes@.len()
                                && (#[trigger] old(
                                self,
                            ).engine_core_state.unwrap().render_scene.nodes@[w]).0 == h;
                        assert(engine_state.render_scene.nodes@[w].0 == h);
                    }
                }
                engine_state.ecs_world.update(
                    delta_time,
                    self.movement_input,
                    &mut engine_state.render_scene,
                );

                // Prepare the accumulators for the next frame.
                self.movement_input.new_frame();

                proof {
                    assert forall|i: int|
                        0 <= i < engine_state.ecs_world.ecs_entities@.len()
                        implies engine_state.render_scene.spec_has_node(
                        (#[trigger] engine_state.ecs_world.ecs_entities@[i]).1.spec_render_node_handle(),
                    ) by {
                        let h =
                            engine_state.ecs_world.ecs_entities@[i].1.spec_render_node_handle();
                        let w = choose|w: int|
                            0 <= w < old(self).engine_core_state.unwrap().render_scene.nodes@.len()
                                && (#[trigger] old(
                                self,
                            ).engine_core_state.unwrap().render_scene.nodes@[w]).0 == h;
                        assert(engine_state.render_scene.nodes@[w].0 == h);
                    }
                }
            },
            None => {
                proof {
                    assert(false);
                }
            },
        }
    }
}

impl EngineInstance {
    /// Records one frame: a no-op while the engine is not started or the
    /// viewport is empty; otherwise runs the pre-render phase, then opens
    /// the color-only render pass (clear to transparent), sets the viewport
    /// and the main pipeline, lets the scene resolve and record its nodes,
    /// and replays the triangle bundle.
    #[verifier::rlimit(100)]
    pub fn render(
        &mut self,
        render_call_state: &mut RenderCallState,
        viewport_region: &ViewportRegion,
        render_camera_handle: ECSEntityHandle,
        delta_time: u64,
    )
        requires
            old(self).wf(),
            match old(self).engine_core_state {
                Some(state) => *viewport_region == ViewportRegion::spec_zero()
                    || state.ecs_world.spec_has_entity(render_camera_handle),
                None => true,
            },
        ensures
            final(self).wf(),
            final(self).window_state == old(self).window_state,
            final(self).surface_format == old(self).surface_format,
            final(self).multisample_count == old(self).multisample_count,
            (*viewport_region == ViewportRegion::spec_zero() || old(self).engine_core_state
                is None) ==> *final(self) == *old(self) && *final(render_call_state) == *old(
                render_call_state,
            ),
            !(*viewport_region == ViewportRegion::spec_zero() || old(self).engine_core_state
                is None) ==> final(self).movement_input == (MovementInput {
                should_roll: old(self).movement_input.should_roll,
                ..MovementInput::spec_cleared()
            }),
            !(*viewport_region == ViewportRegion::spec_zero() || old(self).engine_core_state
                is None) ==> match (old(self).engine_core_state, final(self).engine_core_state) {
                (Some(s0), Some(s1)) => {
                    let input = spec_pulled_input(old(self).movement_input, s0.input_handler);
                    let dt = narrow_bits(delta_time);
                    &&& s1.render_pipeline == s0.render_pipeline
                    &&& s1.triangle_render_bundle == s0.triangle_render_bundle
                    &&& s1.input_handler == s0.input_handler
                    &&& s1.ecs_world.delta_time == dt
                    &&& s1.ecs_world.movement_input.movement_input == input
                    &&& s1.ecs_world.components@ == spec_tick_components(
                        s0.ecs_world.components@,
                        dt,
                        input,
                    )
                    &&& s1.ecs_world.ecs_entities == s0.ecs_world.ecs_entities
                    &&& s1.ecs_world.camera_handles == s0.ecs_world.camera_handles
                    &&& s1.ecs_world.next_entity_handle == s0.ecs_world.next_entity_handle
                    &&& s1.render_scene.next_handle == s0.render_scene.next_handle
                    &&& s1.render_scene.cameras == s0.render_scene.cameras
                    &&& s1.render_scene.static_render_state.bind_group_layouts
                        == s0.render_scene.static_render_state.bind_group_layouts
                    &&& s1.render_scene.static_render_state.buffers@.len()
                        == s0.render_scene.static_render_state.buffers@.len()
                    &&& s1.render_scene.nodes@.len() == s0.render_scene.nodes@.len()
                    &&& forall|j: int|
                        0 <= j < s0.render_scene.nodes@.len() ==> (
                        #[trigger] s1.render_scene.nodes@[j]).0 == s0.render_scene.nodes@[j].0
                    &&& forall|t: int|
                        0 <= t < s0.ecs_world.ecs_entities@.len() && (
                        #[trigger] s0.ecs_world.ecs_entities@[t]).0 == render_camera_handle
                            ==> spec_frame_nodes(
                            s0.render_scene.nodes@,
                            s0.render_scene.cameras@,
                            s0.ecs_world.ecs_entities@,
                            s0.ecs_world.ecs_entities@[t].1.spec_render_node_handle(),
                            s1.ecs_world.components@,
                            s1.render_scene.nodes@,
                        ) && spec_frame_buffers(
                            s0.render_scene.nodes@,
                            s0.render_scene.cameras@,
                            s0.ecs_world.ecs_entities@,
                            s0.ecs_world.ecs_entities@[t].1.spec_render_node_handle(),
                            s1.ecs_world.components@,
                            s0.render_scene.static_render_state.buffers@,
                            s1.render_scene.nodes@,
                            s1.render_scene.static_render_state.buffers@,
                        )
                    &&& final(render_call_state).commands@ == old(render_call_state).commands@
                        + seq![
                        (RenderCommand::BeginRenderPass {
                            multisampled: old(self).multisample_count != 1,
                            store: old(self).multisample_count == 1,
                        }),
                        (RenderCommand::SetViewport {
                            x: viewport_region.x,
                            y: viewport_region.y,
                            width: viewport_region.width,
                            height: viewport_region.height,
                        }),
                        RenderCommand::SetPipeline,
                    ] + bind_command_seq(
                        s0.render_scene.nodes@,
                        s0.render_scene.nodes@.len() as int,
                    ) + seq![RenderCommand::ExecuteTriangleBundle]
                },
                _ => false,
            },
    {
        if *viewport_region == ViewportRegion::zero() || self.engine_core_state.is_none() {
            return;
        }

        // Pre-render phase: ECS tick and active-camera selection.
        self.pre_render(delta_time, render_camera_handle);

        let multisampled = self.multisample_count != 1;
        let store = self.multisample_count == 1;

        match &mut self.engine_core_state {
            Some(engine_state) => {
                // Open the color-only pass, clearing to transparent; storing
                // pre-resolve MSAA data would be wasted work.
                render_call_state.commands.push(RenderCommand::BeginRenderPass {
                    multisampled,
                    store,
                });
                render_call_state.commands.push(RenderCommand::SetViewport {
                    x: viewport_region.x,
                    y: viewport_region.y,
                    width: viewport_region.width,
                    height: viewport_region.height,
                });
                render_call_state.commands.push(RenderCommand::SetPipeline);

                let ghost mid_scene = engine_state.render_scene;
                let ghost commands_mid = render_call_state.commands@;

                engine_state.render_scene.render(render_call_state);

                render_call_state.commands.push(RenderCommand::ExecuteTriangleBundle);

                proof {
                    let s0 = old(self).engine_core_state.unwrap();
                    let s1 = *engine_state;
                    let pre = s0.render_scene.nodes@;

                    // The wrapped entities' nodes still exist: the scene's
                    // resolve keeps every handle in place.
                    assert forall|i: int|
                        0 <= i < s1.ecs_world.ecs_entities@.len()
                        implies s1.render_scene.spec_has_node(
                        (#[trigger] s1.ecs_world.ecs_entities@[i]).1.spec_render_node_handle(),
                    ) by {
                        let h = s1.ecs_world.ecs_entities@[i].1.spec_render_node_handle();
                        let w = choose|w: int|
                            0 <= w < mid_scene.nodes@.len() && (#[trigger] mid_scene.nodes@[w]).0
                                == h;
                        assert(s1.render_scene.nodes@[w].0 == h);
                    }

                    // Node handles and buffer indexes survive the whole
                    // frame, so the bind commands recorded over the resolved
                    // scene equal those of the pre-frame scene.
                    assert forall|j: int|
                        0 <= j < pre.len() implies (#[trigger] mid_scene.nodes@[j]).1.spec_buffer_index()
                        == pre[j].1.spec_buffer_index() && mid_scene.nodes@[j].0 == pre[j].0 by {
                        let t = choose|t: int|
                            0 <= t < s0.ecs_world.ecs_entities@.len() && (
                            #[trigger] s0.ecs_world.ecs_entities@[t]).0 == render_camera_handle;
                        if exists|i: int|
                            0 <= i < s0.ecs_world.ecs_entities@.len() && (
                            #[trigger] s0.ecs_world.ecs_entities@[i]).1.spec_render_node_handle()
                                == pre[j].0 {
                            let i = choose|i: int|
                                0 <= i < s0.ecs_world.ecs_entities@.len() && (
                                #[trigger] s0.ecs_world.ecs_entities@[i]).1.spec_render_node_handle()
                                    == pre[j].0;
                            assert(mid_scene.nodes@[j].1 == spec_pre_resolve_node(
                                pre[j].1,
                                pre[j].0
                                    == s0.ecs_world.ecs_entities@[t].1.spec_render_node_handle(),
                                s0.render_scene.cameras@.contains(pre[j].0),
                                Some(
                                    s1.ecs_world.components@[s0.ecs_world.ecs_entities@[i].1.spec_entity_index()],
                                ),
                            ));
                        }
                    }
                    assert(bind_command_seq(mid_scene.nodes@, pre.len() as int) =~= bind_command_seq(
                        pre,
                        pre.len() as int,
                    ));
                    assert(render_call_state.commands@ =~= old(render_call_state).commands@
                        + seq![
                        (RenderCommand::BeginRenderPass {
                            multisampled: old(self).multisample_count != 1,
                            store: old(self).multisample_count == 1,
                        }),
                        (RenderCommand::SetViewport {
                            x: viewport_region.x,
                            y: viewport_region.y,
                            width: viewport_region.width,
                            height: viewport_region.height,
                        }),
                        RenderCommand::SetPipeline,
                    ] + bind_command_seq(pre, pre.len() as int) + seq![
                        RenderCommand::ExecuteTriangleBundle,
                    ]);

                    // The frame-level node and buffer clauses, for the
                    // wrapper rendered from.
                    assert forall|t: int|
                        0 <= t < s0.ecs_world.ecs_entities@.len() && (
                        #[trigger] s0.ecs_world.ecs_entities@[t]).0 == render_camera_handle
                        implies spec_frame_nodes(
                        pre,
                        s0.render_scene.cameras@,
                        s0.ecs_world.ecs_entities@,
                        s0.ecs_world.ecs_entities@[t].1.spec_render_node_handle(),
                        s1.ecs_world.components@,
                        s1.render_scene.nodes@,
                    ) && spec_frame_buffers(
                        pre,
                        s0.render_scene.cameras@,
                        s0.ecs_world.ecs_entities@,
                        s0.ecs_world.ecs_entities@[t].1.spec_render_node_handle(),
                        s1.ecs_world.components@,
                        s0.render_scene.static_render_state.buffers@,
                        s1.render_scene.nodes@,
                        s1.render_scene.static_render_state.buffers@,
                    ) by {
                        let target = s0.ecs_world.ecs_entities@[t].1.spec_render_node_handle();
                        assert forall|i: int, j: int|
                            0 <= i < s0.ecs_world.ecs_entities@.len() && 0 <= j < pre.len()
                                && pre[j].0 == (#[trigger] s0.ecs_world.ecs_entities@[i]).1.spec_render_node_handle()
                            implies RenderNode::render_step_rel(
                            spec_pre_resolve_node(
                                pre[j].1,
                                pre[j].0 == target,
                                s0.render_scene.cameras@.contains(pre[j].0),
                                Some(
                                    s1.ecs_world.components@[s0.ecs_world.ecs_entities@[i].1.spec_entity_index()],
                                ),
                            ),
                            (#[trigger] s1.render_scene.nodes@[j]).1,
                        ) by {
                            assert(RenderNode::render_step_rel(
                                mid_scene.nodes@[j].1,
                                s1.render_scene.nodes@[j].1,
                            ));
                        }
                        assert forall|j: int|
                            0 <= j < pre.len() && (forall|i: int|
                                0 <= i < s0.ecs_world.ecs_entities@.len() ==> (
                                #[trigger] s0.ecs_world.ecs_entities@[i]).1.spec_render_node_handle()
                                    != pre[j].0)
                            implies RenderNode::render_step_rel(
                            spec_pre_resolve_node(
                                pre[j].1,
                                pre[j].0 == target,
                                s0.render_scene.cameras@.contains(pre[j].0),
                                None,
                            ),
                            (#[trigger] s1.render_scene.nodes@[j]).1,
                        ) by {
                            assert(RenderNode::render_step_rel(
                                mid_scene.nodes@[j].1,
                                s1.render_scene.nodes@[j].1,
                            ));
                        }
                    }
                }
            },
            None => {
                proof {
                    assert(false);
                }
            },
        }
    }
}

/// The render node with its camera's aspect ratio set.
pub open spec fn spec_aspected(node: RenderNode, aspect: u32) -> RenderNode {
    match node {
        RenderNode::Camera(n) => RenderNode::Camera(
            CameraRenderNode { camera: n.camera.spec_set_aspect(aspect), ..n },
        ),
    }
}

/// Whether one of the first `upto` camera entities owns the render node
/// carrying the given handle.
pub open spec fn spec_camera_owns_node(
    wrappers: Seq<(ECSEntityHandle, ECSEntity)>,
    camera_handles: Seq<ECSEntityHandle>,
    upto: int,
    node_handle: RenderNodeHandle,
) -> bool {
    exists|k: int, i: int|
        0 <= k < upto && 0 <= i < wrappers.len() && (#[trigger] wrappers[i]).0 == (
        #[trigger] camera_handles[k]) && wrappers[i].1.spec_render_node_handle() == node_handle
}

impl EngineInstance {
    /// Updates every camera entity's render node to the viewport's aspect
    /// ratio (width over height). A no-op while the engine is not started
    /// or the viewport is empty; position, direction and field of view are
    /// untouched.
    pub fn resize(&mut self, viewport_region: &ViewportRegion)
        requires
            old(self).wf(),
        ensures
            final(self).wf(),
            final(self).window_state == old(self).window_state,
            final(self).surface_format == old(self).surface_format,
            final(self).multisample_count == old(self).multisample_count,
            final(self).movement_input == old(self).movement_input,
            (*viewport_region == ViewportRegion::spec_zero() || old(self).engine_core_state
                is None) ==> *final(self) == *old(self),
            !(*viewport_region == ViewportRegion::spec_zero() || old(self).engine_core_state
                is None) ==> match (old(self).engine_core_state, final(self).engine_core_state) {
                (Some(s0), Some(s1)) => {
                    let aspect = fdiv_bits(viewport_region.width, viewport_region.height);
                    &&& s1.render_pipeline == s0.render_pipeline
                    &&& s1.triangle_render_bundle == s0.triangle_render_bundle
                    &&& s1.input_handler == s0.input_handler
                    &&& s1.ecs_world == s0.ecs_world
                    &&& s1.render_scene.next_handle == s0.render_scene.next_handle
                    &&& s1.render_scene.cameras == s0.render_scene.cameras
                    &&& s1.render_scene.static_render_state
                        == s0.render_scene.static_render_state
                    &&& s1.render_scene.nodes@.len() == s0.render_scene.nodes@.len()
                    &&& forall|j: int|
                        0 <= j < s0.render_scene.nodes@.len() ==> (
                        #[trigger] s1.render_scene.nodes@[j]).0 == s0.render_scene.nodes@[j].0
                    &&& forall|j: int|
                        0 <= j < s0.render_scene.nodes@.len() && spec_camera_owns_node(
                            s0.ecs_world.ecs_entities@,
                            s0.ecs_world.camera_handles@,
                            s0.ecs_world.camera_handles@.len() as int,
                            s0.render_scene.nodes@[j].0,
                        ) ==> (#[trigger] s1.render_scene.nodes@[j]).1 == spec_aspected(
                            s0.render_scene.nodes@[j].1,
                            aspect,
                        )
                    &&& forall|j: int|
                        0 <= j < s0.render_scene.nodes@.len() && !spec_camera_owns_node(
                            s0.ecs_world.ecs_entities@,
                            s0.ecs_world.camera_handles@,
                            s0.ecs_world.camera_handles@.len() as int,
                            s0.render_scene.nodes@[j].0,
                        ) ==> (#[trigger] s1.render_scene.nodes@[j]).1
                            == s0.render_scene.nodes@[j].1
                },
                _ => false,
            },
    {
        if *viewport_region == ViewportRegion::zero() || self.engine_core_state.is_none() {
            return;
        }

        let aspect = fdiv(viewport_region.width, viewport_region.height);

        match &mut self.engine_core_state {
            Some(engine_state) => {
                let ghost s0 = *engine_state;
                let mut k: usize = 0;
                while k < engine_state.ecs_world.camera_handles.len()
                    invariant
                        s0.wf(),
                        k <= s0.ecs_world.camera_handles@.len(),
                        engine_state.render_pipeline == s0.render_pipeline,
                        engine_state.triangle_render_bundle == s0.triangle_render_bundle,
                        engine_state.input_handler == s0.input_handler,
                        engine_state.ecs_world == s0.ecs_world,
                        engine_state.render_scene.next_handle == s0.render_scene.next_handle,
                        engine_state.render_scene.cameras == s0.render_scene.cameras,
                        engine_state.render_scene.static_render_state
                            == s0.render_scene.static_render_state,
                        engine_state.render_scene.nodes@.len() == s0.render_scene.nodes@.len(),
                        forall|j: int|
                            0 <= j < s0.render_scene.nodes@.len() ==> (
                            #[trigger] engine_state.render_scene.nodes@[j]).0
                                == s0.render_scene.nodes@[j].0,
                        forall|j: int|
                            0 <= j < s0.render_scene.nodes@.len() && spec_camera_owns_node(
                                s0.ecs_world.ecs_entities@,
                                s0.ecs_world.camera_handles@,
                                k as int,
                                s0.render_scene.nodes@[j].0,
                            ) ==> (#[trigger] engine_state.render_scene.nodes@[j]).1
                                == spec_aspected(s0.render_scene.nodes@[j].1, aspect),
                        forall|j: int|
                            0 <= j < s0.render_scene.nodes@.len() && !spec_camera_owns_node(
                                s0.ecs_world.ecs_entities@,
                                s0.ecs_world.camera_handles@,
                                k as int,
                                s0.render_scene.nodes@[j].0,
                            ) ==> (#[trigger] engine_state.render_scene.nodes@[j]).1
                                == s0.render_scene.nodes@[j].1,
                    decreases s0.ecs_world.camera_handles@.len() - k,
                {
                    let camera_ecs_handle = engine_state.ecs_world.camera_handles[k];
                    proof {
                        let w = choose|w: int|
                            0 <= w < s0.ecs_world.ecs_entities@.len() && (
                            #[trigger] s0.ecs_world.ecs_entities@[w]).0 == camera_ecs_handle;
                        assert(engine_state.ecs_world.spec_has_entity(camera_ecs_handle));
                    }
                    let node_handle: RenderNodeHandle = match engine_state
                        .get_render_node_handle_by_ecs_handle(&camera_ecs_handle) {
                        Some(node_handle) => node_handle,
                        None => {
                            proof {
                                assert(false);
                            }
                            0
                        },
                    };
                    proof {
                        let w = choose|w: int|
                            0 <= w < s0.ecs_world.ecs_entities@.len() && (
                            #[trigger] s0.ecs_world.ecs_entities@[w]).0 == camera_ecs_handle
                                && s0.ecs_world.ecs_entities@[w].1.spec_render_node_handle()
                                == node_handle;
                        let v = choose|v: int|
                            0 <= v < s0.render_scene.nodes@.len() && (
                            #[trigger] s0.render_scene.nodes@[v]).0 == node_handle;
                        assert(engine_state.render_scene.nodes@[v].0 == node_handle);
                        assert(engine_state.render_scene.spec_has_node(node_handle));
                    }
                    match engine_state.render_scene.find_node_index(node_handle) {
                        Some(j) => {
                            let (h, node) = engine_state.render_scene.nodes[j];
                            match node {
                                RenderNode::Camera(mut camera_node) => {
                                    camera_node.set_aspect(aspect);
                                    engine_state.render_scene.nodes.set(
                                        j,
                                        (h, RenderNode::Camera(camera_node)),
                                    );
                                },
                            }
                            proof {
                                let w = choose|w: int|
                                    0 <= w < s0.ecs_world.ecs_entities@.len() && (
                                    #[trigger] s0.ecs_world.ecs_entities@[w]).0
                                        == camera_ecs_handle
                                        && s0.ecs_world.ecs_entities@[w].1.spec_render_node_handle()
                                        == node_handle;
                                assert(spec_camera_owns_node(
                                    s0.ecs_world.ecs_entities@,
                                    s0.ecs_world.camera_handles@,
                                    k + 1,
                                    node_handle,
                                ));
                                assert forall|j2: int|
                                    0 <= j2 < s0.render_scene.nodes@.len()
                                        && spec_camera_owns_node(
                                        s0.ecs_world.ecs_entities@,
                                        s0.ecs_world.camera_handles@,
                                        k + 1,
                                        s0.render_scene.nodes@[j2].0,
                                    ) implies (#[trigger] engine_state.render_scene.nodes@[j2]).1
                                    == spec_aspected(s0.render_scene.nodes@[j2].1, aspect) by {
                                    if s0.render_scene.nodes@[j2].0 == node_handle {
                                        assert(j2 == j);
                                    } else {
                                        let (k2, i2) = choose|k2: int, i2: int|
                                            0 <= k2 < k + 1 && 0 <= i2
                                                < s0.ecs_world.ecs_entities@.len() && (
                                            #[trigger] s0.ecs_world.ecs_entities@[i2]).0 == (
                                            #[trigger] s0.ecs_world.camera_handles@[k2])
                                                && s0.ecs_world.ecs_entities@[i2].1.spec_render_node_handle()
                                                == s0.render_scene.nodes@[j2].0;
                                        assert(k2 < k);
                                        assert(spec_camera_owns_node(
                                            s0.ecs_world.ecs_entities@,
                                            s0.ecs_world.camera_handles@,
                                            k as int,
                                            s0.render_scene.nodes@[j2].0,
                                        ));
                                    }
                                }
                            }
                        },
                        None => {
                            proof {
                                assert(false);
                            }
                        },
                    }
                    k += 1;
                }
                proof {
                    assert forall|i: int|
                        0 <= i < engine_state.ecs_world.ecs_entities@.len()
                        implies engine_state.render_scene.spec_has_node(
                        (#[trigger] engine_state.ecs_world.ecs_entities@[i]).1.spec_render_node_handle(),
                    ) by {
                        let h =
                            engine_state.ecs_world.ecs_entities@[i].1.spec_render_node_handle();
                        let w = choose|w: int|
                            0 <= w < s0.render_scene.nodes@.len() && (
                            #[trigger] s0.render_scene.nodes@[w]).0 == h;
                        assert(engine_state.render_scene.nodes@[w].0 == h);
                    }
                    assert forall|i: int|
                        0 <= i < engine_state.render_scene.cameras@.len()
                        implies engine_state.render_scene.spec_has_node(
                        #[trigger] engine_state.render_scene.cameras@[i],
                    ) by {
                        let h = engine_state.render_scene.cameras@[i];
                        let w = choose|w: int|
                            0 <= w < s0.render_scene.nodes@.len() && (
                            #[trigger] s0.render_scene.nodes@[w]).0 == h;
                        assert(engine_state.render_scene.nodes@[w].0 == h);
                    }
                    assert forall|i: int, j: int|
                        0 <= i < j < engine_state.render_scene.nodes@.len() implies (
                        #[trigger] engine_state.render_scene.nodes@[i]).1.spec_buffer_index() != (
                        #[trigger] engine_state.render_scene.nodes@[j]).1.spec_buffer_index() by {
                        assert(engine_state.render_scene.nodes@[i].1.spec_buffer_index()
                            == s0.render_scene.nodes@[i].1.spec_buffer_index());
                        assert(engine_state.render_scene.nodes@[j].1.spec_buffer_index()
                            == s0.render_scene.nodes@[j].1.spec_buffer_index());
                    }
                    assert forall|i: int|
                        0 <= i < engine_state.render_scene.nodes@.len() implies 0 <= (
                        #[trigger] engine_state.render_scene.nodes@[i]).1.spec_buffer_index()
                        < engine_state.render_scene.static_render_state.buffers@.len() by {
                        assert(engine_state.render_scene.nodes@[i].1.spec_buffer_index()
                            == s0.render_scene.nodes@[i].1.spec_buffer_index());
                    }
                }
            },
            None => {
                proof {
                    assert(false);
                }
            },
        }
    }

    /// Forwards a keyboard report to the input aggregator.
    pub fn handle_key_state(
        &mut self,
        device_id: u64,
        key_code: u32,
        key_state: ElementState,
        is_synthetic: bool,
        delta_time: u64,
    )
        requires
            old(self).wf(),
            old(self).engine_core_state is Some,
        ensures
            final(self).wf(),
            final(self).window_state == old(self).window_state,
            final(self).surface_format == old(self).surface_format,
            final(self).multisample_count == old(self).multisample_count,
            final(self).movement_input == old(self).movement_input,
            match (old(self).engine_core_state, final(self).engine_core_state) {
                (Some(s0), Some(s1)) => {
                    &&& s1.render_pipeline == s0.render_pipeline
                    &&& s1.triangle_render_bundle == s0.triangle_render_bundle
                    &&& s1.render_scene == s0.render_scene
                    &&& s1.ecs_world == s0.ecs_world
                    &&& crate::input::spec_set_key_rel(
                        s0.input_handler,
                        s1.input_handler,
                        device_id,
                        key_code,
                        key_state,
                    )
                },
                _ => false,
            },
    {
        match &mut self.engine_core_state {
            Some(engine_state) => {
                engine_state.input_handler.set_key_pressed(device_id, key_code, key_state);
            },
            None => {
                proof {
                    assert(false);
                }
            },
        }
    }

    /// A press of the middle mouse button holds roll mode; its release ends
    /// it. Other buttons are ignored.
    pub fn handle_mouse_button_event(
        &mut self,
        device_id: u64,
        mouse_button: MouseButton,
        button_state: ElementState,
        delta_time: u64,
    )
        ensures
            *final(self) == (EngineInstance {
                movement_input: (MovementInput {
                    should_roll: (if button_state == ElementState::Pressed && mouse_button
                        == MouseButton::Middle {
                        true
                    } else if button_state == ElementState::Released && mouse_button
                        == MouseButton::Middle {
                        false
                    } else {
                        old(self).movement_input.should_roll
                    }),
                    ..old(self).movement_input
                }),
                ..*old(self)
            }),
    {
        if button_state == ElementState::Pressed && mouse_button == MouseButton::Middle {
            self.movement_input.should_roll = true;
        } else if button_state == ElementState::Released && mouse_button == MouseButton::Middle {
            self.movement_input.should_roll = false;
        }
    }

    /// Reserved: mouse-wheel input is not consumed yet.
    pub fn handle_mouse_wheel(
        &mut self,
        device_id: u64,
        delta: MouseScrollDelta,
        phase: TouchPhase,
        delta_time: u64,
    )
        ensures
            *final(self) == *old(self),
    {
    }

    /// Accumulates mouse motion into the look deltas: a thousandth of the
    /// reported delta (the words are 64-bit scalar images) is added to the
    /// yaw and pitch deltas cleared at the end of each frame.
    pub fn handle_mouse_motion(&mut self, device_id: u64, mouse_delta: (u64, u64), delta_time: u64)
        ensures
            *final(self) == (EngineInstance {
                movement_input: (MovementInput {
                    delta_yaw: fadd_bits(
                        old(self).movement_input.delta_yaw,
                        fdiv_bits(narrow_bits(mouse_delta.0), THOUSAND_F32),
                    ),
                    delta_pitch: fadd_bits(
                        old(self).movement_input.delta_pitch,
                        fdiv_bits(narrow_bits(mouse_delta.1), THOUSAND_F32),
                    ),
                    ..old(self).movement_input
                }),
                ..*old(self)
            }),
    {
        self.movement_input.delta_yaw = fadd(
            self.movement_input.delta_yaw,
            fdiv(narrow(mouse_delta.0), THOUSAND_F32),
        );
        self.movement_input.delta_pitch = fadd(
            self.movement_input.delta_pitch,
            fdiv(narrow(mouse_delta.1), THOUSAND_F32),
        );
    }

    /// Whether the host should grab and hide the cursor while the engine
    /// has input focus.
    pub fn should_grab_cursor(&self) -> (r: bool)
        ensures
            r,
    {
        true
    }
}

/// Whether `post` nodes stand in the one-frame relation to the scene nodes
/// `pre`: the pre-render transform (activation against `target_node`, then
/// the bridge where a wrapper owns the node), followed by the scene's
/// resolve of whatever that left dirty.
pub open spec fn spec_frame_nodes(
    pre: Seq<(RenderNodeHandle, RenderNode)>,
    cameras: Seq<RenderNodeHandle>,
    wrappers: Seq<(ECSEntityHandle, ECSEntity)>,
    target_node: RenderNodeHandle,
    comps: Seq<EntityComponents>,
    post: Seq<(RenderNodeHandle, RenderNode)>,
) -> bool {
    &&& forall|i: int, j: int|
        0 <= i < wrappers.len() && 0 <= j < pre.len() && pre[j].0 == (
        #[trigger] wrappers[i]).1.spec_render_node_handle() ==> RenderNode::render_step_rel(
            spec_pre_resolve_node(
                pre[j].1,
                pre[j].0 == target_node,
                cameras.contains(pre[j].0),
                Some(comps[wrappers[i].1.spec_entity_index()]),
            ),
            (#[trigger] post[j]).1,
        )
    &&& forall|j: int|
        0 <= j < pre.len() && (forall|i: int|
            0 <= i < wrappers.len() ==> (#[trigger] wrappers[i]).1.spec_render_node_handle()
                != pre[j].0) ==> RenderNode::render_step_rel(
            spec_pre_resolve_node(
                pre[j].1,
                pre[j].0 == target_node,
                cameras.contains(pre[j].0),
                None,
            ),
            (#[trigger] post[j]).1,
        )
}

/// Whether `post_buffers` stand in the one-frame relation to `pre_buffers`:
/// a node's uniform buffer is written exactly when, after activation and
/// the bridge, the node is the active camera and was dirty; every other
/// slot is kept.
pub open spec fn spec_frame_buffers(
    pre: Seq<(RenderNodeHandle, RenderNode)>,
    cameras: Seq<RenderNodeHandle>,
    wrappers: Seq<(ECSEntityHandle, ECSEntity)>,
    target_node: RenderNodeHandle,
    comps: Seq<EntityComponents>,
    pre_buffers: Seq<[u32; 16]>,
    post: Seq<(RenderNodeHandle, RenderNode)>,
    post_buffers: Seq<[u32; 16]>,
) -> bool {
    &&& forall|i: int, j: int|
        0 <= i < wrappers.len() && 0 <= j < pre.len() && pre[j].0 == (
        #[trigger] wrappers[i]).1.spec_render_node_handle() ==> {
            let staged = spec_pre_resolve_node(
                pre[j].1,
                pre[j].0 == target_node,
                cameras.contains(pre[j].0),
                Some(comps[wrappers[i].1.spec_entity_index()]),
            );
            #[trigger] post_buffers[pre[j].1.spec_buffer_index()] == (
            if staged.spec_upload_gate() {
                post[j].1.spec_block()
            } else {
                pre_buffers[pre[j].1.spec_buffer_index()]
            })
        }
    &&& forall|j: int|
        0 <= j < pre.len() && (forall|i: int|
            0 <= i < wrappers.len() ==> (#[trigger] wrappers[i]).1.spec_render_node_handle()
                != pre[j].0) ==> {
            let staged = spec_pre_resolve_node(
                pre[j].1,
                pre[j].0 == target_node,
                cameras.contains(pre[j].0),
                None,
            );
            #[trigger] post_buffers[pre[j].1.spec_buffer_index()] == (
            if staged.spec_upload_gate() {
                post[j].1.spec_block()
            } else {
                pre_buffers[pre[j].1.spec_buffer_index()]
            })
        }
    &&& forall|b: int|
        0 <= b < pre_buffers.len() && (forall|j: int|
            0 <= j < pre.len() ==> (#[trigger] pre[j]).1.spec_buffer_index() != b)
            ==> #[trigger] post_buffers[b] == pre_buffers[b]
}

/// How the pre-render phase relates the started state before (`s0`) and
/// after (`s1`), for the pulled movement input, the delta-time word and the
/// handle of the camera entity rendered from: the frame resources are set,
/// the component storages take one tick, the render camera's node is made
/// the single active camera, and the bridge copies each wrapped entity's
/// ticked state onto its node. Everything else is kept.
pub open spec fn spec_pre_render_core(
    s0: EngineCoreState,
    s1: EngineCoreState,
    input: MovementInput,
    dt: u32,
    render_camera_ecs_handle: ECSEntityHandle,
) -> bool {
    &&& s1.render_pipeline == s0.render_pipeline
    &&& s1.triangle_render_bundle == s0.triangle_render_bundle
    &&& s1.input_handler == s0.input_handler
    &&& s1.ecs_world.delta_time == dt
    &&& s1.ecs_world.movement_input.movement_input == input
    &&& s1.ecs_world.components@ == spec_tick_components(s0.ecs_world.components@, dt, input)
    &&& s1.ecs_world.ecs_entities == s0.ecs_world.ecs_entities
    &&& s1.ecs_world.camera_handles == s0.ecs_world.camera_handles
    &&& s1.ecs_world.next_entity_handle == s0.ecs_world.next_entity_handle
    &&& s1.render_scene.next_handle == s0.render_scene.next_handle
    &&& s1.render_scene.cameras == s0.render_scene.cameras
    &&& s1.render_scene.static_render_state == s0.render_scene.static_render_state
    &&& s1.render_scene.nodes@.len() == s0.render_scene.nodes@.len()
    &&& forall|j: int|
        0 <= j < s0.render_scene.nodes@.len() ==> (#[trigger] s1.render_scene.nodes@[j]).0
            == s0.render_scene.nodes@[j].0
    &&& forall|t: int|
        0 <= t < s0.ecs_world.ecs_entities@.len() && (
        #[trigger] s0.ecs_world.ecs_entities@[t]).0 == render_camera_ecs_handle
            ==> spec_pre_render_nodes(
            s0.render_scene.nodes@,
            s0.render_scene.cameras@,
            s0.ecs_world.ecs_entities@,
            s0.ecs_world.ecs_entities@[t].1.spec_render_node_handle(),
            s1.ecs_world.components@,
            s1.render_scene.nodes@,
        )
}

/// Whether `post` is exactly the pre-render transform of the scene nodes
/// `pre`: activation against `target_node`, then the bridge for each node
/// some wrapper owns, with the ticked components `comps`.
pub open spec fn spec_pre_render_nodes(
    pre: Seq<(RenderNodeHandle, RenderNode)>,
    cameras: Seq<RenderNodeHandle>,
    wrappers: Seq<(ECSEntityHandle, ECSEntity)>,
    target_node: RenderNodeHandle,
    comps: Seq<EntityComponents>,
    post: Seq<(RenderNodeHandle, RenderNode)>,
) -> bool {
    &&& forall|i: int, j: int|
        0 <= i < wrappers.len() && 0 <= j < pre.len() && pre[j].0 == (
        #[trigger] wrappers[i]).1.spec_render_node_handle() ==> (#[trigger] post[j]).1
            == spec_pre_resolve_node(
            pre[j].1,
            pre[j].0 == target_node,
            cameras.contains(pre[j].0),
            Some(comps[wrappers[i].1.spec_entity_index()]),
        )
    &&& forall|j: int|
        0 <= j < pre.len() && (forall|i: int|
            0 <= i < wrappers.len() ==> (#[trigger] wrappers[i]).1.spec_render_node_handle()
                != pre[j].0) ==> (#[trigger] post[j]).1 == spec_pre_resolve_node(
            pre[j].1,
            pre[j].0 == target_node,
            cameras.contains(pre[j].0),
            None,
        )
}

} // verus!

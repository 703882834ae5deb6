//! The perspective camera and its render node.
//!
//! The camera is a value with an explicit dirty flag: every setter compares
//! the new value with the stored one and raises dirty only on a real change,
//! so the downstream GPU upload is gated. `update` resolves a dirty camera
//! into the shader-state block, the 16-word column-major image of the
//! projection-times-view matrix that the vertex stage reads.

use vstd::prelude::*;

use crate::fbits::DEG_180_F32;
use crate::fbits::ONE_F32;
use crate::fbits::PI_F32;
use crate::fbits::Quat;
use crate::fbits::Vec3;
use crate::fbits::fatan2;
use crate::fbits::fatan2_bits;
use crate::fbits::fasin;
use crate::fbits::fasin_bits;
use crate::fbits::fcos;
use crate::fbits::fcos_bits;
use crate::fbits::fdiv;
use crate::fbits::fdiv_bits;
use crate::fbits::fmul;
use crate::fbits::fmul_bits;
use crate::fbits::fsin;
use crate::fbits::fsin_bits;
use crate::fbits::look_at_lh_bits;
use crate::fbits::mat4_look_at_lh;
use crate::fbits::mat4_mul;
use crate::fbits::mat4_mul_bits;
use crate::fbits::mat4_perspective_infinite_lh;
use crate::fbits::mat4_perspective_lh;
use crate::fbits::perspective_infinite_lh_bits;
use crate::fbits::perspective_lh_bits;
use crate::fbits::qrot3;
use crate::fbits::quat_rotate;
use crate::fbits::to_radians;
use crate::fbits::to_radians_bits;
use crate::fbits::vadd3;
use crate::fbits::vcross3;
use crate::fbits::vec3_add;
use crate::fbits::vec3_cross;
use crate::scene::BindGroupLayoutEntry;
use crate::scene::RenderCallState;
use crate::scene::RenderCommand;
use crate::scene::RenderNode;
use crate::scene::RenderNodeHandle;
use crate::scene::RenderScene;
use crate::scene::StaticRenderState;

verus! {

/// The camera state handed to the shader: the view and projection matrices
/// multiplied together, as 16 column-major scalar words.
#[derive(Clone, Copy, Debug)]
pub struct CameraShaderState {
    pub view_proj: [u32; 16],
}

/// The 16 words of the identity matrix.
pub open spec fn identity_block_bits() -> Seq<u32> {
    seq![
        ONE_F32, 0, 0, 0,
        0, ONE_F32, 0, 0,
        0, 0, ONE_F32, 0,
        0, 0, 0, ONE_F32,
    ]
}

/// The shader-state block seeded at construction: the identity matrix.
pub fn identity_shader_state() -> (r: CameraShaderState)
    ensures
        r.view_proj@ == identity_block_bits(),
{
    let view_proj: [u32; 16] = [
        ONE_F32, 0, 0, 0,
        0, ONE_F32, 0, 0,
        0, 0, ONE_F32, 0,
        0, 0, 0, ONE_F32,
    ];
    proof {
        assert(view_proj@ =~= identity_block_bits());
    }
    CameraShaderState { view_proj }
}

#[derive(Clone, Copy, Debug)]
pub struct PerspectiveCamera {
    /// The camera's position.
    pub position: Vec3,
    /// The camera's view direction.
    pub direction: Vec3,
    /// The camera's right vector, derived as up-axis x direction.
    pub right: Vec3,
    /// The camera's forward axis, a fixed configuration.
    pub forward_axis: Vec3,
    /// The camera's up axis.
    pub up_axis: Vec3,
    /// The camera's up vector, derived as direction x right.
    pub up: Vec3,
    /// The camera's aspect ratio.
    pub aspect: u32,
    /// The camera's vertical field of view, in radians.
    pub fov: u32,
    /// The camera's near plane.
    pub near: u32,
    /// The camera's far plane; absent means an infinite far plane.
    pub far: Option<u32>,
    /// Whether the camera's state has changed since the block was resolved.
    pub dirty: bool,
    /// The state of the camera passed to the shader, authoritative only
    /// after a resolve of a dirty camera.
    pub camera_shader_state: CameraShaderState,
}

impl PerspectiveCamera {
    /// The words of the camera's view matrix: a left-handed look-at from the
    /// position toward position + direction with the derived up vector.
    pub open spec fn view_bits(self) -> Seq<u32> {
        look_at_lh_bits(
            self.position.bits(),
            vadd3(self.position, self.direction).bits(),
            self.up.bits(),
        )
    }

    /// The words of the camera's projection matrix: a left-handed perspective
    /// projection, finite or infinite according to the far plane.
    pub open spec fn proj_bits(self) -> Seq<u32> {
        match self.far {
            Some(far) => perspective_lh_bits(self.fov, self.aspect, self.near, far),
            None => perspective_infinite_lh_bits(self.fov, self.aspect, self.near),
        }
    }

    /// The words a resolve stores into the shader-state block: projection
    /// times view, column-major.
    pub open spec fn resolved_block_bits(self) -> Seq<u32> {
        mat4_mul_bits(self.proj_bits(), self.view_bits())
    }

    /// The camera a construction call returns.
    pub open spec fn spec_new(
        position: Vec3,
        direction: Vec3,
        forward_axis: Vec3,
        up_axis: Vec3,
        fov_degrees: u32,
        near: u32,
        far: Option<u32>,
        aspect: u32,
        seeded_block: CameraShaderState,
    ) -> PerspectiveCamera {
        PerspectiveCamera {
            position,
            direction,
            right: vcross3(up_axis, direction),
            forward_axis,
            up_axis,
            up: vcross3(direction, vcross3(up_axis, direction)),
            aspect,
            fov: to_radians_bits(fov_degrees),
            near,
            far,
            dirty: true,
            camera_shader_state: seeded_block,
        }
    }

    pub fn new(
        position: Vec3,
        direction: Vec3,
        forward_axis: Vec3,
        up_axis: Vec3,
        fov_degrees: u32,
        near: u32,
        far: Option<u32>,
        aspect: u32,
    ) -> (r: PerspectiveCamera)
        ensures
            r == PerspectiveCamera::spec_new(
                position, direction, forward_axis, up_axis,
                fov_degrees, near, far, aspect,
                r.camera_shader_state,
            ),
            r.camera_shader_state.view_proj@ == identity_block_bits(),
    {
        let right = vec3_cross(up_axis, direction);
        let up = vec3_cross(direction, right);
        PerspectiveCamera {
            position,
            direction,
            right,
            forward_axis,
            up_axis,
            up,
            aspect,
            fov: to_radians(fov_degrees),
            near,
            far,
            dirty: true,
            camera_shader_state: identity_shader_state(),
        }
    }

    /// Resolves a dirty camera: stores projection times view into the
    /// shader-state block and clears dirty. A clean camera is left untouched.
    pub fn update(&mut self)
        ensures
            !old(self).dirty ==> *final(self) == *old(self),
            old(self).dirty ==> final(self).camera_shader_state.view_proj@
                == old(self).resolved_block_bits(),
            old(self).dirty ==> *final(self) == (PerspectiveCamera {
                dirty: false,
                camera_shader_state: final(self).camera_shader_state,
                ..*old(self)
            }),
    {
        if !self.dirty {
            return;
        }

        let center = vec3_add(self.position, self.direction);
        let view_matrix = mat4_look_at_lh(self.position, center, self.up);

        let projection_matrix = match self.far {
            Some(far) => mat4_perspective_lh(self.fov, self.aspect, self.near, far),
            None => mat4_perspective_infinite_lh(self.fov, self.aspect, self.near),
        };

        self.camera_shader_state.view_proj = mat4_mul(&projection_matrix, &view_matrix);
        self.dirty = false;
    }

    /// Stores a new up axis and re-derives right and up; a value equal to the
    /// stored one leaves the camera untouched.
    pub fn set_up_axis(&mut self, up_axis: Vec3)
        ensures
            old(self).up_axis == up_axis ==> *final(self) == *old(self),
            old(self).up_axis != up_axis ==> *final(self) == (PerspectiveCamera {
                up_axis,
                right: vcross3(up_axis, old(self).direction),
                up: vcross3(
                    old(self).direction,
                    vcross3(up_axis, old(self).direction),
                ),
                dirty: true,
                ..*old(self)
            }),
    {
        if self.up_axis == up_axis {
            return;
        }
        self.up_axis = up_axis;
        self.right = vec3_cross(self.up_axis, self.direction);
        self.up = vec3_cross(self.direction, self.right);
        self.dirty = true;
    }

    /// Stores a new position; a value equal to the stored one leaves the
    /// camera untouched.
    pub fn set_position(&mut self, position: Vec3)
        ensures
            old(self).position == position ==> *final(self) == *old(self),
            old(self).position != position ==> *final(self) == (PerspectiveCamera {
                position,
                dirty: true,
                ..*old(self)
            }),
    {
        if self.position == position {
            return;
        }
        self.position = position;
        self.dirty = true;
    }

    /// Stores a new view direction and re-derives right and up; a value equal
    /// to the stored one leaves the camera untouched.
    pub fn set_direction(&mut self, direction: Vec3)
        ensures
            old(self).direction == direction ==> *final(self) == *old(self),
            old(self).direction != direction ==> *final(self) == (PerspectiveCamera {
                direction,
                right: vcross3(old(self).up_axis, direction),
                up: vcross3(
                    direction,
                    vcross3(old(self).up_axis, direction),
                ),
                dirty: true,
                ..*old(self)
            }),
    {
        if self.direction == direction {
            return;
        }
        self.direction = direction;
        self.right = vec3_cross(self.up_axis, self.direction);
        self.up = vec3_cross(self.direction, self.right);
        self.dirty = true;
    }

    /// Stores a new aspect ratio; a value equal to the stored one leaves the
    /// camera untouched.
    pub fn set_aspect(&mut self, aspect: u32)
        ensures
            old(self).aspect == aspect ==> *final(self) == *old(self),
            old(self).aspect != aspect ==> *final(self) == (PerspectiveCamera {
                aspect,
                dirty: true,
                ..*old(self)
            }),
    {
        if self.aspect == aspect {
            return;
        }
        self.aspect = aspect;
        self.dirty = true;
    }

    /// Stores a new field of view (radians); a value equal to the stored one
    /// leaves the camera untouched.
    pub fn set_fov(&mut self, fov: u32)
        ensures
            old(self).fov == fov ==> *final(self) == *old(self),
            old(self).fov != fov ==> *final(self) == (PerspectiveCamera {
                fov,
                dirty: true,
                ..*old(self)
            }),
    {
        if self.fov == fov {
            return;
        }
        self.fov = fov;
        self.dirty = true;
    }

    /// Stores a new near plane; a value equal to the stored one leaves the
    /// camera untouched.
    pub fn set_near(&mut self, near: u32)
        ensures
            old(self).near == near ==> *final(self) == *old(self),
            old(self).near != near ==> *final(self) == (PerspectiveCamera {
                near,
                dirty: true,
                ..*old(self)
            }),
    {
        if self.near == near {
            return;
        }
        self.near = near;
        self.dirty = true;
    }

    /// Stores a new finite far plane; a camera already holding exactly that
    /// far plane is left untouched.
    pub fn set_far(&mut self, far: u32)
        ensures
            old(self).far == Some(far) ==> *final(self) == *old(self),
            old(self).far != Some(far) ==> *final(self) == (PerspectiveCamera {
                far: Some(far),
                dirty: true,
                ..*old(self)
            }),
    {
        let same = match self.far {
            Some(stored) => stored == far,
            None => false,
        };
        if same {
            return;
        }
        self.far = Some(far);
        self.dirty = true;
    }

    /// The camera a `set_position` call leaves behind.
    pub open spec fn spec_set_position(self, position: Vec3) -> PerspectiveCamera {
        if self.position == position {
            self
        } else {
            PerspectiveCamera { position, dirty: true, ..self }
        }
    }

    /// The camera a `set_aspect` call leaves behind.
    pub open spec fn spec_set_aspect(self, aspect: u32) -> PerspectiveCamera {
        if self.aspect == aspect {
            self
        } else {
            PerspectiveCamera { aspect, dirty: true, ..self }
        }
    }

    /// The camera a `set_fov` call leaves behind.
    pub open spec fn spec_set_fov(self, fov: u32) -> PerspectiveCamera {
        if self.fov == fov {
            self
        } else {
            PerspectiveCamera { fov, dirty: true, ..self }
        }
    }

    /// The camera a `set_rotation` call leaves behind: direction, up and
    /// right re-derived by rotating the fixed axes, dirty raised only when
    /// one of the three changed.
    pub open spec fn spec_set_rotation(self, rotation: Quat) -> PerspectiveCamera {
        let direction = qrot3(rotation, self.forward_axis);
        let up = qrot3(rotation, self.up_axis);
        let right = vcross3(up, direction);
        PerspectiveCamera {
            direction,
            up,
            right,
            dirty: self.dirty
                || !(self.direction == direction && self.up == up && self.right == right),
            ..self
        }
    }

    /// Points the camera along a rotation: direction becomes the rotated
    /// forward axis, up the rotated up axis, right their cross product.
    pub fn set_rotation(&mut self, rotation: Quat)
        ensures
            *final(self) == old(self).spec_set_rotation(rotation),
    {
        let direction = quat_rotate(rotation, self.forward_axis);
        let up = quat_rotate(rotation, self.up_axis);
        let right = vec3_cross(up, direction);

        if !(self.direction == direction && self.up == up && self.right == right) {
            self.dirty = true;
        }
        self.direction = direction;
        self.up = up;
        self.right = right;
    }

    /// The camera a `set_rotation_euler` call leaves behind: the direction
    /// built from the yaw and pitch angles, right and up re-derived, dirty
    /// raised.
    pub open spec fn spec_set_rotation_euler(
        self,
        yaw_degrees: u32,
        pitch_degrees: u32,
    ) -> PerspectiveCamera {
        let yaw = to_radians_bits(yaw_degrees);
        let pitch = to_radians_bits(pitch_degrees);
        let direction = Vec3 {
            x: fmul_bits(fcos_bits(yaw), fcos_bits(pitch)),
            y: fsin_bits(pitch),
            z: fmul_bits(fsin_bits(yaw), fcos_bits(pitch)),
        };
        let right = vcross3(self.up_axis, direction);
        PerspectiveCamera {
            direction,
            right,
            up: vcross3(direction, right),
            dirty: true,
            ..self
        }
    }

    /// Points the camera by yaw and pitch angles given in degrees.
    pub fn set_rotation_euler(&mut self, yaw_degrees: u32, pitch_degrees: u32)
        ensures
            *final(self) == old(self).spec_set_rotation_euler(yaw_degrees, pitch_degrees),
    {
        let yaw = to_radians(yaw_degrees);
        let pitch = to_radians(pitch_degrees);
        let cos_pitch = fcos(pitch);
        self.direction = Vec3 {
            x: fmul(fcos(yaw), cos_pitch),
            y: fsin(pitch),
            z: fmul(fsin(yaw), cos_pitch),
        };
        self.right = vec3_cross(self.up_axis, self.direction);
        self.up = vec3_cross(self.direction, self.right);
        self.dirty = true;
    }

    /// The camera a `set_roll_euler` call leaves behind: the up axis rolled
    /// to (cos roll, sin roll, 0), right and up re-derived, dirty raised.
    pub open spec fn spec_set_roll_euler(self, roll_degrees: u32) -> PerspectiveCamera {
        let roll = to_radians_bits(roll_degrees);
        let up_axis = Vec3 { x: fcos_bits(roll), y: fsin_bits(roll), z: 0u32 };
        let right = vcross3(up_axis, self.direction);
        PerspectiveCamera {
            up_axis,
            right,
            up: vcross3(self.direction, right),
            dirty: true,
            ..self
        }
    }

    /// Rolls the camera about its direction by an angle given in degrees.
    pub fn set_roll_euler(&mut self, roll_degrees: u32)
        ensures
            *final(self) == old(self).spec_set_roll_euler(roll_degrees),
    {
        let roll = to_radians(roll_degrees);
        self.up_axis = Vec3 { x: fcos(roll), y: fsin(roll), z: 0 };
        self.right = vec3_cross(self.up_axis, self.direction);
        self.up = vec3_cross(self.direction, self.right);
        self.dirty = true;
    }

    /// The camera's yaw, in degrees: the angle of the direction's (x, z)
    /// pair, scaled from radians.
    pub fn yaw(&self) -> (r: u32)
        ensures
            r == fmul_bits(
                fatan2_bits(self.direction.z, self.direction.x),
                fdiv_bits(DEG_180_F32, PI_F32),
            ),
    {
        fmul(fatan2(self.direction.z, self.direction.x), fdiv(DEG_180_F32, PI_F32))
    }

    /// The camera's pitch, in degrees: the arc sine of the direction's y
    /// component, scaled from radians.
    pub fn pitch(&self) -> (r: u32)
        ensures
            r == fmul_bits(fasin_bits(self.direction.y), fdiv_bits(DEG_180_F32, PI_F32)),
    {
        fmul(fasin(self.direction.y), fdiv(DEG_180_F32, PI_F32))
    }

    /// The camera's roll, in degrees: the angle of the up axis's (x, y) pair,
    /// scaled from radians.
    pub fn roll(&self) -> (r: u32)
        ensures
            r == fmul_bits(
                fatan2_bits(self.up_axis.y, self.up_axis.x),
                fdiv_bits(DEG_180_F32, PI_F32),
            ),
    {
        fmul(fatan2(self.up_axis.y, self.up_axis.x), fdiv(DEG_180_F32, PI_F32))
    }

    pub fn position(&self) -> (r: Vec3)
        ensures
            r == self.position,
    {
        self.position
    }

    pub fn direction(&self) -> (r: Vec3)
        ensures
            r == self.direction,
    {
        self.direction
    }

    pub fn up_axis(&self) -> (r: Vec3)
        ensures
            r == self.up_axis,
    {
        self.up_axis
    }

    pub fn aspect(&self) -> (r: u32)
        ensures
            r == self.aspect,
    {
        self.aspect
    }

    pub fn fov(&self) -> (r: u32)
        ensures
            r == self.fov,
    {
        self.fov
    }

    pub fn near(&self) -> (r: u32)
        ensures
            r == self.near,
    {
        self.near
    }

    pub fn far(&self) -> (r: Option<u32>)
        ensures
            r == self.far,
    {
        self.far
    }

    pub fn right(&self) -> (r: Vec3)
        ensures
            r == self.right,
    {
        self.right
    }

    pub fn up(&self) -> (r: Vec3)
        ensures
            r == self.up,
    {
        self.up
    }

    /// Whether the camera's state has changed since the block was resolved.
    pub fn is_dirty(&self) -> (r: bool)
        ensures
            r == self.dirty,
    {
        self.dirty
    }
}

/// The render node owning a perspective camera, its uniform buffer and the
/// bind group referencing that buffer.
#[derive(Clone, Copy, Debug)]
pub struct CameraRenderNode {
    pub camera: PerspectiveCamera,
    /// The index of the node's uniform buffer (and of the bind group that
    /// references it) in the shared render context.
    pub buffer_index: usize,
    /// Whether the camera is currently the camera being rendered from.
    /// Only one camera can be rendered from at a time.
    pub is_active_camera: bool,
    /// The node-level dirty flag; raised on activation transitions so the
    /// buffer of a newly active camera is refreshed on the next resolve.
    pub dirty: bool,
}

impl CameraRenderNode {
    /// Marks the node as the active camera; idempotent, and a real
    /// transition raises the node-dirty flag.
    pub fn set_active(&mut self)
        ensures
            old(self).is_active_camera ==> *final(self) == *old(self),
            !old(self).is_active_camera ==> *final(self) == (CameraRenderNode {
                is_active_camera: true,
                dirty: true,
                ..*old(self)
            }),
    {
        if self.is_active_camera {
            return;
        }
        self.is_active_camera = true;
        self.dirty = true;
    }

    /// Marks the node as not the active camera; idempotent, and a real
    /// transition raises the node-dirty flag.
    pub fn set_inactive(&mut self)
        ensures
            !old(self).is_active_camera ==> *final(self) == *old(self),
            old(self).is_active_camera ==> *final(self) == (CameraRenderNode {
                is_active_camera: false,
                dirty: true,
                ..*old(self)
            }),
    {
        if !self.is_active_camera {
            return;
        }
        self.is_active_camera = false;
        self.dirty = true;
    }

    /// Whether the node needs a resolve: node-dirty or camera-dirty.
    pub fn is_dirty(&self) -> (r: bool)
        ensures
            r == (self.dirty || self.camera.dirty),
    {
        self.dirty || self.camera.dirty
    }

    /// Records the node's draw work: binds the camera bind group to group
    /// index 0. Allocates nothing.
    pub fn render(&self, render_call: &mut RenderCallState)
        ensures
            final(render_call).commands@ == old(render_call).commands@.push(
                RenderCommand::SetBindGroup {
                    group_index: 0,
                    buffer_index: self.buffer_index,
                },
            ),
    {
        render_call.commands.push(RenderCommand::SetBindGroup {
            group_index: 0,
            buffer_index: self.buffer_index,
        });
    }

    /// Resolves the node's dirty state: resolves a dirty camera, clears the
    /// node-dirty flag, and writes the camera's shader state into the node's
    /// uniform buffer exactly when the node is the active camera and the
    /// camera or the node was dirty.
    pub fn resolve_dirty_state(&mut self, static_render_state: &mut StaticRenderState)
        requires
            old(self).buffer_index < old(static_render_state).buffers@.len(),
        ensures
            final(self).buffer_index == old(self).buffer_index,
            final(self).is_active_camera == old(self).is_active_camera,
            !final(self).dirty,
            !old(self).camera.dirty ==> final(self).camera == old(self).camera,
            old(self).camera.dirty ==> final(self).camera.camera_shader_state.view_proj@
                == old(self).camera.resolved_block_bits(),
            old(self).camera.dirty ==> final(self).camera == (PerspectiveCamera {
                dirty: false,
                camera_shader_state: final(self).camera.camera_shader_state,
                ..old(self).camera
            }),
            old(self).is_active_camera && (old(self).camera.dirty || old(self).dirty)
                ==> final(static_render_state).buffers@ == old(
                static_render_state,
            ).buffers@.update(
                old(self).buffer_index as int,
                final(self).camera.camera_shader_state.view_proj,
            ),
            !(old(self).is_active_camera && (old(self).camera.dirty || old(self).dirty))
                ==> final(static_render_state).buffers@ == old(static_render_state).buffers@,
            final(static_render_state).bind_group_layouts == old(
                static_render_state,
            ).bind_group_layouts,
    {
        let was_camera_dirty = self.camera.dirty;
        let was_camera_render_node_dirty = self.dirty;
        if self.camera.dirty {
            self.camera.update();
        }
        if self.dirty {
            self.dirty = false;
        }
        if self.is_active_camera {
            if was_camera_dirty || was_camera_render_node_dirty {
                // The camera's state has changed, or this camera has just
                // become the active one and the buffer still holds another
                // camera's data: refresh the whole block from offset 0.
                static_render_state.buffers.set(
                    self.buffer_index,
                    self.camera.camera_shader_state.view_proj,
                );
            }
        }
    }

    /// Creates the node for a camera: allocates its uniform buffer seeded
    /// from the camera's shader state, creates the bind-group layout (one
    /// vertex-visible uniform-buffer binding at slot 0) and the bind group,
    /// appends the layout to the scene's accumulated layouts, and inserts
    /// the node into the scene.
    pub fn add_new(camera: PerspectiveCamera, scene: &mut RenderScene) -> (r: RenderNodeHandle)
        requires
            old(scene).wf(),
            old(scene).next_handle < 0xffff_ffff_ffff_ffffu64,
        ensures
            final(scene).wf(),
            r == old(scene).next_handle,
            final(scene).next_handle == old(scene).next_handle + 1,
            final(scene).nodes@ == old(scene).nodes@.push(
                (
                    r,
                    RenderNode::Camera(CameraRenderNode {
                        camera,
                        buffer_index: old(scene).static_render_state.buffers@.len() as usize,
                        is_active_camera: false,
                        dirty: false,
                    }),
                ),
            ),
            final(scene).cameras@ == old(scene).cameras@.push(r),
            final(scene).static_render_state.buffers@ == old(
                scene,
            ).static_render_state.buffers@.push(camera.camera_shader_state.view_proj),
            final(scene).static_render_state.bind_group_layouts@ == old(
                scene,
            ).static_render_state.bind_group_layouts@.push(BindGroupLayoutEntry {
                binding: 0,
                vertex_visible: true,
                has_dynamic_offset: false,
            }),
    {
        let buffer_index = scene.static_render_state.buffers.len();
        scene.static_render_state.buffers.push(camera.camera_shader_state.view_proj);
        scene.static_render_state.push_bind_group_layout(BindGroupLayoutEntry {
            binding: 0,
            vertex_visible: true,
            has_dynamic_offset: false,
        });
        let camera_node = CameraRenderNode {
            camera,
            buffer_index,
            is_active_camera: false,
            dirty: false,
        };
        scene.add_node(RenderNode::Camera(camera_node))
    }

    pub fn set_position(&mut self, position: Vec3)
        ensures
            old(self).camera.position == position ==> *final(self) == *old(self),
            old(self).camera.position != position ==> *final(self) == (CameraRenderNode {
                camera: (PerspectiveCamera { position, dirty: true, ..old(self).camera }),
                ..*old(self)
            }),
    {
        self.camera.set_position(position);
    }

    pub fn set_rotation(&mut self, quat: Quat)
        ensures
            *final(self) == (CameraRenderNode {
                camera: old(self).camera.spec_set_rotation(quat),
                ..*old(self)
            }),
    {
        self.camera.set_rotation(quat);
    }

    pub fn set_rotation_euler(&mut self, yaw_degrees: u32, pitch_degrees: u32)
        ensures
            *final(self) == (CameraRenderNode {
                camera: old(self).camera.spec_set_rotation_euler(yaw_degrees, pitch_degrees),
                ..*old(self)
            }),
    {
        self.camera.set_rotation_euler(yaw_degrees, pitch_degrees);
    }

    pub fn set_roll_euler(&mut self, roll_degrees: u32)
        ensures
            *final(self) == (CameraRenderNode {
                camera: old(self).camera.spec_set_roll_euler(roll_degrees),
                ..*old(self)
            }),
    {
        self.camera.set_roll_euler(roll_degrees);
    }

    pub fn yaw(&self) -> (r: u32)
        ensures
            r == fmul_bits(
                fatan2_bits(self.camera.direction.z, self.camera.direction.x),
                fdiv_bits(DEG_180_F32, PI_F32),
            ),
    {
        self.camera.yaw()
    }

    pub fn pitch(&self) -> (r: u32)
        ensures
            r == fmul_bits(
                fasin_bits(self.camera.direction.y),
                fdiv_bits(DEG_180_F32, PI_F32),
            ),
    {
        self.camera.pitch()
    }

    pub fn roll(&self) -> (r: u32)
        ensures
            r == fmul_bits(
                fatan2_bits(self.camera.up_axis.y, self.camera.up_axis.x),
                fdiv_bits(DEG_180_F32, PI_F32),
            ),
    {
        self.camera.roll()
    }

    pub fn position(&self) -> (r: Vec3)
        ensures
            r == self.camera.position,
    {
        self.camera.position()
    }

    pub fn direction(&self) -> (r: Vec3)
        ensures
            r == self.camera.direction,
    {
        self.camera.direction()
    }

    pub fn right(&self) -> (r: Vec3)
        ensures
            r == self.camera.right,
    {
        self.camera.right()
    }

    pub fn up(&self) -> (r: Vec3)
        ensures
            r == self.camera.up,
    {
        self.camera.up()
    }

    pub fn up_axis(&self) -> (r: Vec3)
        ensures
            r == self.camera.up_axis,
    {
        self.camera.up_axis()
    }

    pub fn aspect(&self) -> (r: u32)
        ensures
            r == self.camera.aspect,
    {
        self.camera.aspect()
    }

    pub fn fov(&self) -> (r: u32)
        ensures
            r == self.camera.fov,
    {
        self.camera.fov()
    }

    pub fn near(&self) -> (r: u32)
        ensures
            r == self.camera.near,
    {
        self.camera.near()
    }

    pub fn far(&self) -> (r: Option<u32>)
        ensures
            r == self.camera.far,
    {
        self.camera.far()
    }

    pub fn set_aspect(&mut self, aspect: u32)
        ensures
            old(self).camera.aspect == aspect ==> *final(self) == *old(self),
            old(self).camera.aspect != aspect ==> *final(self) == (CameraRenderNode {
                camera: (PerspectiveCamera { aspect, dirty: true, ..old(self).camera }),
                ..*old(self)
            }),
    {
        self.camera.set_aspect(aspect);
    }

    pub fn set_fov(&mut self, fov: u32)
        ensures
            old(self).camera.fov == fov ==> *final(self) == *old(self),
            old(self).camera.fov != fov ==> *final(self) == (CameraRenderNode {
                camera: (PerspectiveCamera { fov, dirty: true, ..old(self).camera }),
                ..*old(self)
            }),
    {
        self.camera.set_fov(fov);
    }

    pub fn set_up_axis(&mut self, up_axis: Vec3)
        ensures
            old(self).camera.up_axis == up_axis ==> *final(self) == *old(self),
            old(self).camera.up_axis != up_axis ==> *final(self) == (CameraRenderNode {
                camera: (PerspectiveCamera {
                    up_axis,
                    right: vcross3(up_axis, old(self).camera.direction),
                    up: vcross3(
                        old(self).camera.direction,
                        vcross3(up_axis, old(self).camera.direction),
                    ),
                    dirty: true,
                    ..old(self).camera
                }),
                ..*old(self)
            }),
    {
        self.camera.set_up_axis(up_axis);
    }

    pub fn set_near(&mut self, near: u32)
        ensures
            old(self).camera.near == near ==> *final(self) == *old(self),
            old(self).camera.near != near ==> *final(self) == (CameraRenderNode {
                camera: (PerspectiveCamera { near, dirty: true, ..old(self).camera }),
                ..*old(self)
            }),
    {
        self.camera.set_near(near);
    }

    pub fn set_far(&mut self, far: u32)
        ensures
            old(self).camera.far == Some(far) ==> *final(self) == *old(self),
            old(self).camera.far != Some(far) ==> *final(self) == (CameraRenderNode {
                camera: (PerspectiveCamera { far: Some(far), dirty: true, ..old(self).camera }),
                ..*old(self)
            }),
    {
        self.camera.set_far(far);
    }

    /// Resolves the owned camera directly.
    pub fn update(&mut self)
        ensures
            !old(self).camera.dirty ==> *final(self) == *old(self),
            old(self).camera.dirty ==> final(self).camera.camera_shader_state.view_proj@
                == old(self).camera.resolved_block_bits(),
            old(self).camera.dirty ==> *final(self) == (CameraRenderNode {
                camera: (PerspectiveCamera {
                    dirty: false,
                    camera_shader_state: final(self).camera.camera_shader_state,
                    ..old(self).camera
                }),
                ..*old(self)
            }),
    {
        self.camera.update();
    }
}

} // verus!

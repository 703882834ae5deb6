//! The renderable scene: a handle-indexed collection of render nodes plus the
//! shared GPU context, with per-frame "resolve then record" orchestration.
//!
//! The GPU itself is a host collaborator: the shared context carries the
//! model of what the host holds on the device (the uniform buffers and the
//! accumulated bind-group layouts), and recording a frame appends plain
//! commands that the host replays into its render pass.

use vstd::prelude::*;

use crate::camera::CameraRenderNode;

verus! {

/// A type used to reference a render node in the scene.
pub type RenderNodeHandle = u64;

/// One bind-group-layout entry accumulated by the scene, for the host to
/// create and for the render pipeline to be built against.
#[derive(Clone, Copy, Debug, PartialEq, Eq, Structural)]
pub struct BindGroupLayoutEntry {
    pub binding: u32,
    pub vertex_visible: bool,
    pub has_dynamic_offset: bool,
}

/// The shared render context: the engine-side model of the state the host
/// keeps on the GPU device.
pub struct StaticRenderState {
    /// The accumulated bind-group layouts, append-only while nodes are
    /// created.
    pub bind_group_layouts: Vec<BindGroupLayoutEntry>,
    /// The uniform buffers owned by the scene's nodes, each a 16-word
    /// shader-state block, indexed by the order of their creation.
    pub buffers: Vec<[u32; 16]>,
}

impl StaticRenderState {
    pub fn new() -> (r: StaticRenderState)
        ensures
            r.bind_group_layouts@ == Seq::<BindGroupLayoutEntry>::empty(),
            r.buffers@ == Seq::<[u32; 16]>::empty(),
    {
        StaticRenderState { bind_group_layouts: Vec::new(), buffers: Vec::new() }
    }

    pub(crate) fn push_bind_group_layout(&mut self, bind_group: BindGroupLayoutEntry)
        ensures
            final(self).bind_group_layouts@ == old(self).bind_group_layouts@.push(bind_group),
            final(self).buffers == old(self).buffers,
    {
        self.bind_group_layouts.push(bind_group);
    }
}

/// One command recorded into the frame's render pass, replayed by the host.
#[derive(Clone, Copy, Debug, PartialEq, Eq, Structural)]
pub enum RenderCommand {
    /// Open the frame's color-only render pass, clearing to transparent;
    /// `multisampled` selects the MSAA framebuffer with a resolve to the
    /// surface, and `store` whether the attachment is stored.
    BeginRenderPass { multisampled: bool, store: bool },
    /// Bind the bind group referencing the uniform buffer at `buffer_index`
    /// to the given group slot.
    SetBindGroup { group_index: u32, buffer_index: usize },
    /// Set the viewport rectangle; the words are scalar bit images.
    SetViewport { x: u32, y: u32, width: u32, height: u32 },
    /// Bind the main render pipeline.
    SetPipeline,
    /// Replay the pre-recorded triangle bundle.
    ExecuteTriangleBundle,
}

/// Render state specific to one render call: the commands recorded so far
/// into the frame's render pass.
pub struct RenderCallState {
    pub commands: Vec<RenderCommand>,
}

impl RenderCallState {
    pub fn new() -> (r: RenderCallState)
        ensures
            r.commands@ == Seq::<RenderCommand>::empty(),
    {
        RenderCallState { commands: Vec::new() }
    }
}

/// A render node of the scene. The nodes the engine knows are a closed set,
/// so the polymorphic contract (is-dirty, resolve-dirty, record-draw, typed
/// access) is carried by a tagged variant rather than runtime dispatch.
#[derive(Clone, Copy, Debug)]
pub enum RenderNode {
    Camera(CameraRenderNode),
}

impl RenderNode {
    /// Whether the node needs a resolve before its next draw.
    pub open spec fn spec_is_dirty(self) -> bool {
        match self {
            RenderNode::Camera(node) => node.dirty || node.camera.dirty,
        }
    }

    /// The index of the uniform buffer the node owns.
    pub open spec fn spec_buffer_index(self) -> int {
        match self {
            RenderNode::Camera(node) => node.buffer_index as int,
        }
    }

    /// Whether a resolve of the node writes its uniform buffer: the node must
    /// be the active camera and something must have been dirty.
    pub open spec fn spec_upload_gate(self) -> bool {
        match self {
            RenderNode::Camera(node) => node.is_active_camera && (node.camera.dirty
                || node.dirty),
        }
    }

    /// The node's current shader-state block.
    pub open spec fn spec_block(self) -> [u32; 16] {
        match self {
            RenderNode::Camera(node) => node.camera.camera_shader_state.view_proj,
        }
    }

    /// How a resolve relates the node before (`pre`) and after (`post`): the
    /// camera is resolved, the node-dirty flag is cleared, and everything
    /// else is kept.
    pub open spec fn resolve_rel(pre: RenderNode, post: RenderNode) -> bool {
        match (pre, post) {
            (RenderNode::Camera(a), RenderNode::Camera(b)) => {
                &&& b.buffer_index == a.buffer_index
                &&& b.is_active_camera == a.is_active_camera
                &&& !b.dirty
                &&& if a.camera.dirty {
                    &&& b.camera.camera_shader_state.view_proj@
                        == a.camera.resolved_block_bits()
                    &&& b.camera == (crate::camera::PerspectiveCamera {
                        dirty: false,
                        camera_shader_state: b.camera.camera_shader_state,
                        ..a.camera
                    })
                } else {
                    b.camera == a.camera
                }
            },
        }
    }

    /// The node after being marked active: idempotent, and a real
    /// transition raises the node-dirty flag.
    pub open spec fn spec_activated(self) -> RenderNode {
        match self {
            RenderNode::Camera(node) => RenderNode::Camera(
                if node.is_active_camera {
                    node
                } else {
                    CameraRenderNode { is_active_camera: true, dirty: true, ..node }
                },
            ),
        }
    }

    /// The node after being marked inactive: idempotent, and a real
    /// transition raises the node-dirty flag.
    pub open spec fn spec_deactivated(self) -> RenderNode {
        match self {
            RenderNode::Camera(node) => RenderNode::Camera(
                if !node.is_active_camera {
                    node
                } else {
                    CameraRenderNode { is_active_camera: false, dirty: true, ..node }
                },
            ),
        }
    }

    /// The activation transitions behind active-camera exclusivity: an
    /// activated node is the active camera and a deactivated one is not, so
    /// after `RenderScene::set_active_camera` the chosen node is active and
    /// every other camera in the scene's camera list is inactive.
    pub proof fn lemma_activation_exclusive(self)
        ensures
            match self.spec_activated() {
                RenderNode::Camera(node) => node.is_active_camera,
            },
            match self.spec_deactivated() {
                RenderNode::Camera(node) => !node.is_active_camera,
            },
    {
    }

    /// How one step of the scene's render loop relates a node before and
    /// after: a dirty node is resolved, a clean one is left untouched.
    pub open spec fn render_step_rel(pre: RenderNode, post: RenderNode) -> bool {
        if pre.spec_is_dirty() {
            RenderNode::resolve_rel(pre, post)
        } else {
            post == pre
        }
    }

    pub fn is_dirty(&self) -> (r: bool)
        ensures
            r == self.spec_is_dirty(),
    {
        match self {
            RenderNode::Camera(node) => node.is_dirty(),
        }
    }
}

/// The bind commands the scene's first `n` nodes record, in insertion order:
/// each camera node binds its bind group to group index 0.
pub open spec fn bind_command_seq(
    nodes: Seq<(RenderNodeHandle, RenderNode)>,
    n: int,
) -> Seq<RenderCommand> {
    Seq::new(
        n as nat,
        |j: int| (RenderCommand::SetBindGroup {
            group_index: 0,
            buffer_index: nodes[j].1.spec_buffer_index() as usize,
        }),
    )
}

pub struct RenderScene {
    /// The next handle to allocate; handles are monotonically increasing and
    /// never reused within a scene's lifetime.
    pub next_handle: RenderNodeHandle,
    /// The scene's nodes with their handles, in insertion order.
    pub nodes: Vec<(RenderNodeHandle, RenderNode)>,
    /// The handles of the scene's camera nodes.
    pub cameras: Vec<RenderNodeHandle>,
    pub static_render_state: StaticRenderState,
}

impl RenderScene {
    /// Whether some node carries the given handle.
    pub open spec fn spec_has_node(self, handle: RenderNodeHandle) -> bool {
        exists|i: int|
            0 <= i < self.nodes@.len() && (#[trigger] self.nodes@[i]).0 == handle
    }

    /// The scene's well-formedness: handles are unique, below the allocation
    /// counter and at least 1; every handle in the camera list refers to an
    /// extant node; and every node owns its own slot in the buffer list.
    pub open spec fn wf(self) -> bool {
        &&& 1 <= self.next_handle
        &&& forall|i: int, j: int|
            0 <= i < j < self.nodes@.len() ==> (#[trigger] self.nodes@[i]).0 != (
            #[trigger] self.nodes@[j]).0
        &&& forall|i: int|
            0 <= i < self.nodes@.len() ==> 1 <= (#[trigger] self.nodes@[i]).0
                < self.next_handle
        &&& forall|i: int|
            0 <= i < self.cameras@.len() ==> self.spec_has_node(
                #[trigger] self.cameras@[i],
            )
        &&& forall|i: int|
            0 <= i < self.nodes@.len() ==> 0 <= (#[trigger] self.nodes@[i]).1.spec_buffer_index()
                < self.static_render_state.buffers@.len()
        &&& forall|i: int, j: int|
            0 <= i < j < self.nodes@.len() ==> (#[trigger] self.nodes@[i]).1.spec_buffer_index() != (
            #[trigger] self.nodes@[j]).1.spec_buffer_index()
    }

    pub fn new(static_render_state: StaticRenderState) -> (r: RenderScene)
        ensures
            r.next_handle == 1,
            r.nodes@ == Seq::<(RenderNodeHandle, RenderNode)>::empty(),
            r.cameras@ == Seq::<RenderNodeHandle>::empty(),
            r.static_render_state == static_render_state,
            r.wf(),
    {
        RenderScene {
            next_handle: 1,
            nodes: Vec::new(),
            cameras: Vec::new(),
            static_render_state,
        }
    }

    /// The index of the node carrying the given handle, if any.
    pub(crate) fn find_node_index(&self, handle: RenderNodeHandle) -> (r: Option<usize>)
        ensures
            match r {
                Some(i) => i < self.nodes@.len() && self.nodes@[i as int].0 == handle,
                None => !self.spec_has_node(handle),
            },
    {
        let mut i: usize = 0;
        while i < self.nodes.len()
            invariant
                i <= self.nodes@.len(),
                forall|j: int| 0 <= j < i ==> (#[trigger] self.nodes@[j]).0 != handle,
            decreases self.nodes@.len() - i,
        {
            if self.nodes[i].0 == handle {
                return Some(i);
            }
            i += 1;
        }
        None
    }

    /// Inserts a node under the next handle; a camera node's handle is also
    /// appended to the camera list. Returns the handle.
    pub(crate) fn add_node(&mut self, node: RenderNode) -> (handle: RenderNodeHandle)
        requires
            old(self).wf(),
            old(self).next_handle < 0xffff_ffff_ffff_ffffu64,
            0 <= node.spec_buffer_index() < old(self).static_render_state.buffers@.len(),
            forall|i: int|
                0 <= i < old(self).nodes@.len() ==> (#[trigger] old(self).nodes@[i]).1.spec_buffer_index()
                    != node.spec_buffer_index(),
        ensures
            final(self).wf(),
            handle == old(self).next_handle,
            final(self).next_handle == old(self).next_handle + 1,
            final(self).nodes@ == old(self).nodes@.push((handle, node)),
            final(self).cameras@ == old(self).cameras@.push(handle),
            final(self).static_render_state == old(self).static_render_state,
    {
        match &node {
            RenderNode::Camera(_) => {
                self.cameras.push(self.next_handle);
            },
        }
        let handle = self.next_handle;
        self.nodes.push((handle, node));
        self.next_handle = self.next_handle + 1;
        proof {
            assert forall|i: int|
                0 <= i < self.cameras@.len() implies self.spec_has_node(
                #[trigger] self.cameras@[i],
            ) by {
                if i < old(self).cameras@.len() {
                    let h = self.cameras@[i];
                    let w = choose|k: int|
                        0 <= k < old(self).nodes@.len() && (#[trigger] old(
                            self,
                        ).nodes@[k]).0 == h;
                    assert(self.nodes@[w].0 == h);
                } else {
                    assert(self.nodes@[self.nodes@.len() - 1].0 == self.cameras@[i]);
                }
            }
        }
        handle
    }

    /// A copy of the camera node carrying the given handle, or absent when no
    /// node does.
    pub fn get_node_by_id(&self, node_handle: &RenderNodeHandle) -> (r: Option<
        CameraRenderNode,
    >)
        ensures
            match r {
                Some(node) => exists|i: int|
                    0 <= i < self.nodes@.len() && #[trigger] self.nodes@[i] == (
                    *node_handle,
                    RenderNode::Camera(node),
                    ),
                None => !self.spec_has_node(*node_handle),
            },
    {
        match self.find_node_index(*node_handle) {
            Some(i) => {
                let (_, node) = self.nodes[i];
                match node {
                    RenderNode::Camera(camera_node) => Some(camera_node),
                }
            },
            None => None,
        }
    }

    /// Activates the camera node carrying the given handle and deactivates
    /// every other camera in the scene's camera list. The transitions raise
    /// the node-dirty flag, so the next resolve refreshes the now-active
    /// buffer.
    pub fn set_active_camera(&mut self, camera_handle: &RenderNodeHandle)
        requires
            old(self).wf(),
            old(self).spec_has_node(*camera_handle),
        ensures
            final(self).wf(),
            final(self).next_handle == old(self).next_handle,
            final(self).cameras == old(self).cameras,
            final(self).static_render_state == old(self).static_render_state,
            final(self).nodes@.len() == old(self).nodes@.len(),
            forall|j: int|
                0 <= j < old(self).nodes@.len() ==> (#[trigger] final(self).nodes@[j]).0 == old(
                    self,
                ).nodes@[j].0,
            forall|j: int|
                0 <= j < old(self).nodes@.len() && old(self).nodes@[j].0 == *camera_handle
                    ==> (#[trigger] final(self).nodes@[j]).1 == old(
                    self,
                ).nodes@[j].1.spec_activated(),
            forall|j: int|
                0 <= j < old(self).nodes@.len() && old(self).nodes@[j].0 != *camera_handle
                    && old(self).cameras@.contains(old(self).nodes@[j].0) ==> (
                #[trigger] final(self).nodes@[j]).1 == old(self).nodes@[j].1.spec_deactivated(),
            forall|j: int|
                0 <= j < old(self).nodes@.len() && old(self).nodes@[j].0 != *camera_handle
                    && !old(self).cameras@.contains(old(self).nodes@[j].0) ==> (
                #[trigger] final(self).nodes@[j]).1 == old(self).nodes@[j].1,
    {
        let handle = *camera_handle;

        match self.find_node_index(handle) {
            Some(i) => {
                let (h, node) = self.nodes[i];
                match node {
                    RenderNode::Camera(mut camera_node) => {
                        camera_node.set_active();
                        self.nodes.set(i, (h, RenderNode::Camera(camera_node)));
                    },
                }
            },
            None => {
                proof {
                    assert(false);
                }
            },
        }

        let mut k: usize = 0;
        while k < self.cameras.len()
            invariant
                old(self).wf(),
                old(self).spec_has_node(*camera_handle),
                handle == *camera_handle,
                k <= self.cameras@.len(),
                self.cameras == old(self).cameras,
                self.next_handle == old(self).next_handle,
                self.static_render_state == old(self).static_render_state,
                self.nodes@.len() == old(self).nodes@.len(),
                forall|j: int|
                    0 <= j < old(self).nodes@.len() ==> (#[trigger] self.nodes@[j]).0 == old(
                        self,
                    ).nodes@[j].0,
                forall|j: int|
                    0 <= j < old(self).nodes@.len() && old(self).nodes@[j].0 == handle ==> (
                    #[trigger] self.nodes@[j]).1 == old(self).nodes@[j].1.spec_activated(),
                forall|j: int|
                    0 <= j < old(self).nodes@.len() && old(self).nodes@[j].0 != handle && (
                    exists|m: int|
                        0 <= m < k && #[trigger] old(self).cameras@[m] == old(self).nodes@[j].0)
                    ==> (#[trigger] self.nodes@[j]).1 == old(self).nodes@[j].1.spec_deactivated(),
                forall|j: int|
                    0 <= j < old(self).nodes@.len() && old(self).nodes@[j].0 != handle && !(
                    exists|m: int|
                        0 <= m < k && #[trigger] old(self).cameras@[m] == old(self).nodes@[j].0)
                    ==> (#[trigger] self.nodes@[j]).1 == old(self).nodes@[j].1,
            decreases self.cameras@.len() - k,
        {
            let other = self.cameras[k];
            if other != handle {
                proof {
                    let m = choose|m: int|
                        0 <= m < old(self).nodes@.len() && (#[trigger] old(
                            self,
                        ).nodes@[m]).0 == other;
                    assert(self.nodes@[m].0 == other);
                }
                match self.find_node_index(other) {
                    Some(j) => {
                        let (h2, node2) = self.nodes[j];
                        match node2 {
                            RenderNode::Camera(mut camera_node) => {
                                camera_node.set_inactive();
                                self.nodes.set(j, (h2, RenderNode::Camera(camera_node)));
                            },
                        }
                    },
                    None => {
                        proof {
                            assert(false);
                        }
                    },
                }
            }
            k += 1;
        }

        proof {
            assert forall|i: int|
                0 <= i < self.cameras@.len() implies self.spec_has_node(
                #[trigger] self.cameras@[i],
            ) by {
                let h = self.cameras@[i];
                let w = choose|w: int|
                    0 <= w < old(self).nodes@.len() && (#[trigger] old(self).nodes@[w]).0 == h;
                assert(self.nodes@[w].0 == h);
            }
            assert forall|i: int|
                0 <= i < self.nodes@.len() implies 0 <= (
                #[trigger] self.nodes@[i]).1.spec_buffer_index()
                < self.static_render_state.buffers@.len() by {
                assert(self.nodes@[i].1.spec_buffer_index() == old(
                    self,
                ).nodes@[i].1.spec_buffer_index());
            }
            assert forall|i: int, j: int|
                0 <= i < j < self.nodes@.len() implies (
                #[trigger] self.nodes@[i]).1.spec_buffer_index() != (
                #[trigger] self.nodes@[j]).1.spec_buffer_index() by {
                assert(self.nodes@[i].1.spec_buffer_index() == old(
                    self,
                ).nodes@[i].1.spec_buffer_index());
                assert(self.nodes@[j].1.spec_buffer_index() == old(
                    self,
                ).nodes@[j].1.spec_buffer_index());
            }
        }
    }

    /// Renders the scene: iterates the nodes in insertion order, resolving
    /// each dirty node before recording its draw. A node's uniform buffer is
    /// written exactly when the node is the active camera and it was dirty;
    /// every node then appends its bind command to the render call.
    pub fn render(&mut self, render_call_state: &mut RenderCallState)
        requires
            old(self).wf(),
        ensures
            final(self).wf(),
            final(self).next_handle == old(self).next_handle,
            final(self).cameras == old(self).cameras,
            final(self).static_render_state.bind_group_layouts == old(
                self,
            ).static_render_state.bind_group_layouts,
            final(self).nodes@.len() == old(self).nodes@.len(),
            forall|j: int|
                0 <= j < old(self).nodes@.len() ==> (#[trigger] final(self).nodes@[j]).0 == old(
                    self,
                ).nodes@[j].0,
            forall|j: int|
                0 <= j < old(self).nodes@.len() ==> RenderNode::render_step_rel(
                    old(self).nodes@[j].1,
                    (#[trigger] final(self).nodes@[j]).1,
                ),
            final(self).static_render_state.buffers@.len() == old(
                self,
            ).static_render_state.buffers@.len(),
            forall|j: int|
                0 <= j < old(self).nodes@.len() && old(self).nodes@[j].1.spec_upload_gate()
                    ==> final(self).static_render_state.buffers@[old(
                    self,
                ).nodes@[j].1.spec_buffer_index()] == (
                #[trigger] final(self).nodes@[j]).1.spec_block(),
            forall|b: int|
                0 <= b < old(self).static_render_state.buffers@.len() && (forall|j: int|
                    0 <= j < old(self).nodes@.len() ==> !((#[trigger] old(
                        self,
                    ).nodes@[j]).1.spec_upload_gate() && old(self).nodes@[j].1.spec_buffer_index()
                        == b)) ==> #[trigger] final(self).static_render_state.buffers@[b] == old(
                    self,
                ).static_render_state.buffers@[b],
            final(render_call_state).commands@ == old(render_call_state).commands@
                + bind_command_seq(old(self).nodes@, old(self).nodes@.len() as int),
    {
        let mut i: usize = 0;
        while i < self.nodes.len()
            invariant
                old(self).wf(),
                i <= self.nodes@.len(),
                self.nodes@.len() == old(self).nodes@.len(),
                self.cameras == old(self).cameras,
                self.next_handle == old(self).next_handle,
                self.static_render_state.bind_group_layouts == old(
                    self,
                ).static_render_state.bind_group_layouts,
                self.static_render_state.buffers@.len() == old(
                    self,
                ).static_render_state.buffers@.len(),
                forall|j: int|
                    0 <= j < old(self).nodes@.len() ==> (#[trigger] self.nodes@[j]).0 == old(
                        self,
                    ).nodes@[j].0,
                forall|j: int|
                    0 <= j < old(self).nodes@.len() ==> (
                    #[trigger] self.nodes@[j]).1.spec_buffer_index() == old(
                        self,
                    ).nodes@[j].1.spec_buffer_index(),
                forall|j: int|
                    0 <= j < i ==> RenderNode::render_step_rel(
                        old(self).nodes@[j].1,
                        (#[trigger] self.nodes@[j]).1,
                    ),
                forall|j: int|
                    i <= j < old(self).nodes@.len() ==> (#[trigger] self.nodes@[j]).1 == old(
                        self,
                    ).nodes@[j].1,
                forall|j: int|
                    0 <= j < i && old(self).nodes@[j].1.spec_upload_gate()
                        ==> self.static_render_state.buffers@[old(
                        self,
                    ).nodes@[j].1.spec_buffer_index()] == (
                    #[trigger] self.nodes@[j]).1.spec_block(),
                forall|b: int|
                    0 <= b < old(self).static_render_state.buffers@.len() && (forall|j: int|
                        0 <= j < i ==> !((#[trigger] old(self).nodes@[j]).1.spec_upload_gate()
                            && old(self).nodes@[j].1.spec_buffer_index() == b))
                        ==> #[trigger] self.static_render_state.buffers@[b] == old(
                        self,
                    ).static_render_state.buffers@[b],
                render_call_state.commands@ == old(render_call_state).commands@
                    + bind_command_seq(old(self).nodes@, i as int),
            decreases self.nodes@.len() - i,
        {
            let (h, node) = self.nodes[i];
            let mut node = node;
            if node.is_dirty() {
                node = match node {
                    RenderNode::Camera(mut camera_node) => {
                        camera_node.resolve_dirty_state(&mut self.static_render_state);
                        RenderNode::Camera(camera_node)
                    },
                };
            }
            match &node {
                RenderNode::Camera(camera_node) => {
                    camera_node.render(render_call_state);
                },
            }
            self.nodes.set(i, (h, node));
            proof {
                assert(render_call_state.commands@ == old(render_call_state).commands@
                    + bind_command_seq(old(self).nodes@, i as int).push(
                    RenderCommand::SetBindGroup {
                        group_index: 0,
                        buffer_index: old(self).nodes@[i as int].1.spec_buffer_index() as usize,
                    },
                ));
                assert(bind_command_seq(old(self).nodes@, i as int).push(
                    RenderCommand::SetBindGroup {
                        group_index: 0,
                        buffer_index: old(self).nodes@[i as int].1.spec_buffer_index() as usize,
                    },
                ) =~= bind_command_seq(old(self).nodes@, i + 1));
            }
            i += 1;
        }

        proof {
            assert forall|i: int|
                0 <= i < self.cameras@.len() implies self.spec_has_node(
                #[trigger] self.cameras@[i],
            ) by {
                let h = self.cameras@[i];
                let w = choose|w: int|
                    0 <= w < old(self).nodes@.len() && (#[trigger] old(self).nodes@[w]).0 == h;
                assert(self.nodes@[w].0 == h);
            }
        }
    }
}

} // verus!

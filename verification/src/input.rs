//! Input aggregation: per-device keyboard state, keyed by a host-assigned
//! device identifier, with the first registered device as the primary
//! keyboard.

use vstd::prelude::*;

verus! {

/// The state of one key or button, as the host reports it.
#[derive(Clone, Copy, Debug, PartialEq, Eq, Structural)]
pub enum ElementState {
    Pressed,
    Released,
}

/// The keyboard state of one device: the last reported state of each key,
/// keyed by the host's key code. A key never reported is released.
pub struct KeyboardInputHandler {
    pub key_states: Vec<(u32, ElementState)>,
}

impl KeyboardInputHandler {
    /// The association list holds at most one entry per key.
    pub open spec fn wf(self) -> bool {
        forall|i: int, j: int|
            0 <= i < j < self.key_states@.len() ==> (#[trigger] self.key_states@[i]).0 != (
            #[trigger] self.key_states@[j]).0
    }

    /// The last reported state of the key; `Released` when none was.
    pub open spec fn spec_key_state(self, key: u32) -> ElementState {
        if exists|i: int|
            0 <= i < self.key_states@.len() && (#[trigger] self.key_states@[i]).0 == key {
            let i = choose|i: int|
                0 <= i < self.key_states@.len() && (#[trigger] self.key_states@[i]).0 == key;
            self.key_states@[i].1
        } else {
            ElementState::Released
        }
    }

    /// Whether the key is currently pressed.
    pub open spec fn spec_is_pressed(self, key: u32) -> bool {
        self.spec_key_state(key) == ElementState::Pressed
    }

    pub fn new() -> (r: KeyboardInputHandler)
        ensures
            r.key_states@ == Seq::<(u32, ElementState)>::empty(),
            r.wf(),
    {
        KeyboardInputHandler { key_states: Vec::new() }
    }

    pub fn get_key_state(&self, key: u32) -> (r: ElementState)
        requires
            self.wf(),
        ensures
            r == self.spec_key_state(key),
    {
        let mut i: usize = 0;
        while i < self.key_states.len()
            invariant
                self.wf(),
                i <= self.key_states@.len(),
                forall|j: int| 0 <= j < i ==> (#[trigger] self.key_states@[j]).0 != key,
            decreases self.key_states@.len() - i,
        {
            if self.key_states[i].0 == key {
                return self.key_states[i].1;
            }
            i += 1;
        }
        ElementState::Released
    }

    pub fn is_key_pressed(&self, key: u32) -> (r: bool)
        requires
            self.wf(),
        ensures
            r == self.spec_is_pressed(key),
    {
        let state = self.get_key_state(key);
        match state {
            ElementState::Pressed => true,
            ElementState::Released => false,
        }
    }

    /// Stores the reported state of a key, replacing what was known of it.
    pub fn set_key_pressed(&mut self, key: u32, pressed: ElementState)
        requires
            old(self).wf(),
        ensures
            final(self).wf(),
            final(self).spec_key_state(key) == pressed,
            forall|k: u32|
                k != key ==> #[trigger] final(self).spec_key_state(k) == old(self).spec_key_state(k),
    {
        let mut i: usize = 0;
        while i < self.key_states.len()
            invariant
                self.wf(),
                i <= self.key_states@.len(),
                *self == *old(self),
                forall|j: int| 0 <= j < i ==> (#[trigger] self.key_states@[j]).0 != key,
            decreases self.key_states@.len() - i,
        {
            if self.key_states[i].0 == key {
                self.key_states.set(i, (key, pressed));
                proof {
                    let i_int = i as int;
                    assert forall|k: u32|
                        k != key implies #[trigger] self.spec_key_state(k) == old(self).spec_key_state(k) by {
                        if exists|m: int|
                            0 <= m < old(self).key_states@.len() && (#[trigger] old(self).key_states@[m]).0 == k {
                            let m = choose|m: int|
                                0 <= m < old(self).key_states@.len() && (#[trigger] old(self).key_states@[m]).0 == k;
                            assert(self.key_states@[m].0 == k);
                        }
                    }
                    assert(self.key_states@[i_int].0 == key);
                }
                return;
            }
            i += 1;
        }
        self.key_states.push((key, pressed));
        proof {
            let last = self.key_states@.len() - 1;
            assert(self.key_states@[last].0 == key);
            assert forall|k: u32|
                k != key implies #[trigger] self.spec_key_state(k) == old(self).spec_key_state(k) by {
                if exists|m: int|
                    0 <= m < old(self).key_states@.len() && (#[trigger] old(self).key_states@[m]).0 == k {
                    let m = choose|m: int|
                        0 <= m < old(self).key_states@.len() && (#[trigger] old(self).key_states@[m]).0 == k;
                    assert(self.key_states@[m].0 == k);
                }
            }
        }
    }
}

/// The input aggregator: the keyboard state of each device, in registration
/// order. The first registered device is the primary keyboard.
pub struct InputHandler {
    pub keyboard_input_handlers: Vec<(u64, KeyboardInputHandler)>,
}

/// How one key report relates the aggregator before and after: the device's
/// keyboard takes the reported state for the key (a first report registers
/// the device at the end), and every other device and key is kept.
pub open spec fn spec_set_key_rel(
    pre: InputHandler,
    post: InputHandler,
    device_id: u64,
    key: u32,
    pressed: ElementState,
) -> bool {
    &&& post.keyboard_input_handlers@.len() >= pre.keyboard_input_handlers@.len()
    &&& post.keyboard_input_handlers@.len() > 0
    &&& forall|i: int|
        0 <= i < post.keyboard_input_handlers@.len() ==> (
        #[trigger] post.keyboard_input_handlers@[i]).0 == (if i
            < pre.keyboard_input_handlers@.len() {
            pre.keyboard_input_handlers@[i].0
        } else {
            device_id
        })
    &&& forall|i: int|
        0 <= i < post.keyboard_input_handlers@.len() && (
        #[trigger] post.keyboard_input_handlers@[i]).0 != device_id
            ==> post.keyboard_input_handlers@[i].1 == pre.keyboard_input_handlers@[i].1
    &&& forall|i: int|
        0 <= i < post.keyboard_input_handlers@.len() && (
        #[trigger] post.keyboard_input_handlers@[i]).0 == device_id
            ==> post.keyboard_input_handlers@[i].1.spec_key_state(key) == pressed && (forall|
            k: u32,
        |
            k != key ==> #[trigger] post.keyboard_input_handlers@[i].1.spec_key_state(k) == (if i
                < pre.keyboard_input_handlers@.len() {
                pre.keyboard_input_handlers@[i].1.spec_key_state(k)
            } else {
                ElementState::Released
            }))
}

impl InputHandler {
    /// At most one keyboard per device, each well-formed.
    pub open spec fn wf(self) -> bool {
        &&& forall|i: int, j: int|
            0 <= i < j < self.keyboard_input_handlers@.len() ==> (
            #[trigger] self.keyboard_input_handlers@[i]).0 != (
            #[trigger] self.keyboard_input_handlers@[j]).0
        &&& forall|i: int|
            0 <= i < self.keyboard_input_handlers@.len() ==> (
            #[trigger] self.keyboard_input_handlers@[i]).1.wf()
    }

    /// The primary keyboard's state, when any device has registered.
    pub open spec fn spec_primary(self) -> Option<KeyboardInputHandler> {
        if self.keyboard_input_handlers@.len() > 0 {
            Some(self.keyboard_input_handlers@[0].1)
        } else {
            None
        }
    }

    pub fn new() -> (r: InputHandler)
        ensures
            r.keyboard_input_handlers@ == Seq::<(u64, KeyboardInputHandler)>::empty(),
            r.wf(),
    {
        InputHandler { keyboard_input_handlers: Vec::new() }
    }

    /// Stores the reported state of a key on a device, registering the
    /// device's keyboard when the report is its first.
    pub fn set_key_pressed(&mut self, device_id: u64, key: u32, pressed: ElementState)
        requires
            old(self).wf(),
        ensures
            final(self).wf(),
            spec_set_key_rel(*old(self), *final(self), device_id, key, pressed),
    {
        let mut i: usize = 0;
        while i < self.keyboard_input_handlers.len()
            invariant
                self.wf(),
                i <= self.keyboard_input_handlers@.len(),
                *self == *old(self),
                forall|j: int|
                    0 <= j < i ==> (#[trigger] self.keyboard_input_handlers@[j]).0 != device_id,
            decreases self.keyboard_input_handlers@.len() - i,
        {
            if self.keyboard_input_handlers[i].0 == device_id {
                let (_, mut keyboard) = self.keyboard_input_handlers.remove(i);
                keyboard.set_key_pressed(key, pressed);
                self.keyboard_input_handlers.insert(i, (device_id, keyboard));
                proof {
                    assert(self.keyboard_input_handlers@ =~= old(self).keyboard_input_handlers@.update(i as int, (device_id, keyboard)));
                }
                return;
            }
            i += 1;
        }
        let mut keyboard = KeyboardInputHandler::new();
        keyboard.set_key_pressed(key, pressed);
        self.keyboard_input_handlers.push((device_id, keyboard));
    }

    /// A copy of the primary keyboard's state: the first registered device.
    pub fn get_primary_keyboard(&self) -> (r: Option<&KeyboardInputHandler>)
        ensures
            match r {
                Some(keyboard) => self.spec_primary() == Some(*keyboard),
                None => self.spec_primary() is None,
            },
    {
        if self.keyboard_input_handlers.len() > 0 {
            Some(&self.keyboard_input_handlers[0].1)
        } else {
            None
        }
    }
}

} // verus!

use vstd::prelude::*;

use std::collections::HashMap;

verus! {

broadcast use vstd::std_specs::hash::group_hash_axioms;

// Key codes for the keys the game reads. The window library reports keys as
// enum discriminants; these constants mirror those values.
pub const KEY_A: u32 = 0;

pub const KEY_D: u32 = 3;

pub const KEY_S: u32 = 18;

pub const KEY_W: u32 = 22;

pub const KEY_ESCAPE: u32 = 36;

/// A raw window event, reduced to what the input snapshot reads: key
/// transitions, identified by key code, and everything else.
#[derive(Clone, Copy, PartialEq, Eq, Structural, Debug)]
pub enum Event {
    KeyPressed { code: u32 },
    KeyReleased { code: u32 },
    Other,
}

/// Per-frame snapshot of keyboard state: which keys are physically held,
/// which went down this frame, and which went up this frame. The transient
/// sets are cleared once per frame and rebuilt from the raw event stream.
pub struct Input {
    held_keys: HashMap<u32, bool>,
    keys_down: HashMap<u32, bool>,
    keys_up: HashMap<u32, bool>,
}

impl Input {
    /// The held-key table: a key code maps to `true` while the key is
    /// physically down.
    pub closed spec fn held_map(&self) -> Map<u32, bool> {
        self.held_keys@
    }

    /// The pressed-this-frame table.
    pub closed spec fn down_map(&self) -> Map<u32, bool> {
        self.keys_down@
    }

    /// The released-this-frame table.
    pub closed spec fn up_map(&self) -> Map<u32, bool> {
        self.keys_up@
    }

    /// Whether `key` is recorded as physically held.
    pub open spec fn spec_key_held(&self, key: u32) -> bool {
        self.held_map().contains_key(key) && self.held_map()[key]
    }

    /// Whether `key` is recorded as pressed this frame.
    pub open spec fn spec_key_down(&self, key: u32) -> bool {
        self.down_map().contains_key(key) && self.down_map()[key]
    }

    /// Whether `key` is recorded as released this frame.
    pub open spec fn spec_key_up(&self, key: u32) -> bool {
        self.up_map().contains_key(key) && self.up_map()[key]
    }

    /// An empty snapshot: no key held, none pressed, none released.
    pub fn new() -> (r: Input)
        ensures
            r.held_map() == Map::<u32, bool>::empty(),
            r.down_map() == Map::<u32, bool>::empty(),
            r.up_map() == Map::<u32, bool>::empty(),
    {
        Input {
            held_keys: HashMap::new(),
            keys_down: HashMap::new(),
            keys_up: HashMap::new(),
        }
    }

    /// Clear the transient pressed/released sets at the start of a frame;
    /// the held set persists across frames.
    pub fn clear_input(&mut self)
        ensures
            final(self).down_map() == Map::<u32, bool>::empty(),
            final(self).up_map() == Map::<u32, bool>::empty(),
            final(self).held_map() == old(self).held_map(),
    {
        self.keys_down.clear();
        self.keys_up.clear();
    }

    /// Fold one raw event into the snapshot: a key press marks the key as
    /// pressed and held, a key release marks it as released and no longer
    /// held, any other event changes nothing.
    pub fn check_input(&mut self, event: Event)
        ensures
            match event {
                Event::KeyPressed { code } => {
                    &&& final(self).down_map() == old(self).down_map().insert(code, true)
                    &&& final(self).held_map() == old(self).held_map().insert(code, true)
                    &&& final(self).up_map() == old(self).up_map()
                },
                Event::KeyReleased { code } => {
                    &&& final(self).up_map() == old(self).up_map().insert(code, true)
                    &&& final(self).held_map() == old(self).held_map().insert(code, false)
                    &&& final(self).down_map() == old(self).down_map()
                },
                Event::Other => {
                    &&& final(self).held_map() == old(self).held_map()
                    &&& final(self).down_map() == old(self).down_map()
                    &&& final(self).up_map() == old(self).up_map()
                },
            },
    {
        match event {
            Event::KeyPressed { code } => self.key_pressed(code),
            Event::KeyReleased { code } => self.key_released(code),
            Event::Other => {},
        }
    }

    /// Level-triggered query: `true` on every frame the key is physically
    /// down; a key the snapshot has never seen is not held.
    pub fn is_key_held_down(&self, key: u32) -> (r: bool)
        ensures
            r == self.spec_key_held(key),
    {
        match self.held_keys.get(&key) {
            Some(v) => *v,
            None => false,
        }
    }

    /// Edge-triggered query: `true` only on the frame the key transitioned
    /// to pressed.
    pub fn is_key_down(&self, key: u32) -> (r: bool)
        ensures
            r == self.spec_key_down(key),
    {
        match self.keys_down.get(&key) {
            Some(v) => *v,
            None => false,
        }
    }

    /// Edge-triggered query: `true` only on the frame the key transitioned
    /// to released.
    pub fn is_key_up(&self, key: u32) -> (r: bool)
        ensures
            r == self.spec_key_up(key),
    {
        match self.keys_up.get(&key) {
            Some(v) => *v,
            None => false,
        }
    }

    fn key_pressed(&mut self, key: u32)
        ensures
            final(self).down_map() == old(self).down_map().insert(key, true),
            final(self).held_map() == old(self).held_map().insert(key, true),
            final(self).up_map() == old(self).up_map(),
    {
        self.keys_down.insert(key, true);
        self.held_keys.insert(key, true);
    }

    fn key_released(&mut self, key: u32)
        ensures
            final(self).up_map() == old(self).up_map().insert(key, true),
            final(self).held_map() == old(self).held_map().insert(key, false),
            final(self).down_map() == old(self).down_map(),
    {
        self.keys_up.insert(key, true);
        self.held_keys.insert(key, false);
    }
}

} // verus!

//! A snapshot of the keys that the demo reads.
use vstd::prelude::*;

verus! {

/// The keys that move the player or the circle.
#[derive(Clone, Copy, Debug, PartialEq, Eq, Structural)]
pub enum Key {
    KeyW,
    KeyA,
    KeyS,
    KeyD,
    ArrowUp,
    ArrowLeft,
    ArrowDown,
    ArrowRight,
}

/// A set of keys, one flag per key.
#[derive(Clone, Copy, Debug, PartialEq, Eq, Structural)]
pub struct KeySet {
    pub w: bool,
    pub a: bool,
    pub s: bool,
    pub d: bool,
    pub up: bool,
    pub left: bool,
    pub down: bool,
    pub right: bool,
}

impl View for KeySet {
    type V = Set<Key>;

    open spec fn view(&self) -> Set<Key> {
        Set::new(|k: Key| self.flag(k))
    }
}

impl KeySet {
    /// Whether `k` is in the set, read from its flag.
    pub open spec fn flag(self, k: Key) -> bool {
        match k {
            Key::KeyW => self.w,
            Key::KeyA => self.a,
            Key::KeyS => self.s,
            Key::KeyD => self.d,
            Key::ArrowUp => self.up,
            Key::ArrowLeft => self.left,
            Key::ArrowDown => self.down,
            Key::ArrowRight => self.right,
        }
    }

    /// The set with no key in it.
    pub fn empty() -> (r: KeySet)
        ensures
            r@ == Set::<Key>::empty(),
    {
        let r = KeySet {
            w: false,
            a: false,
            s: false,
            d: false,
            up: false,
            left: false,
            down: false,
            right: false,
        };
        assert(r@ =~= Set::<Key>::empty());
        r
    }

    /// Adds `k` to the set.
    pub fn insert(&mut self, k: Key)
        ensures
            final(self)@ == old(self)@.insert(k),
    {
        match k {
            Key::KeyW => self.w = true,
            Key::KeyA => self.a = true,
            Key::KeyS => self.s = true,
            Key::KeyD => self.d = true,
            Key::ArrowUp => self.up = true,
            Key::ArrowLeft => self.left = true,
            Key::ArrowDown => self.down = true,
            Key::ArrowRight => self.right = true,
        }
        assert(self@ =~= old(self)@.insert(k));
    }

    /// Whether `k` is in the set.
    pub fn contains(&self, k: Key) -> (r: bool)
        ensures
            r == self@.contains(k),
    {
        match k {
            Key::KeyW => self.w,
            Key::KeyA => self.a,
            Key::KeyS => self.s,
            Key::KeyD => self.d,
            Key::ArrowUp => self.up,
            Key::ArrowLeft => self.left,
            Key::ArrowDown => self.down,
            Key::ArrowRight => self.right,
        }
    }
}

/// The keyboard as seen in one frame: the keys held down, and the keys
/// released since the previous frame.
#[derive(Clone, Copy, Debug, PartialEq, Eq, Structural)]
pub struct Keyboard {
    pub pressed: KeySet,
    pub just_released: KeySet,
}

impl Keyboard {
    /// Either key of a pair is held.
    pub open spec fn held_either(self, a: Key, b: Key) -> bool {
        self.pressed@.contains(a) || self.pressed@.contains(b)
    }

    /// Either key of a pair was just released.
    pub open spec fn released_either(self, a: Key, b: Key) -> bool {
        self.just_released@.contains(a) || self.just_released@.contains(b)
    }

    /// `W` or the up arrow is held.
    pub open spec fn up_held(self) -> bool {
        self.held_either(Key::KeyW, Key::ArrowUp)
    }

    /// `S` or the down arrow is held.
    pub open spec fn down_held(self) -> bool {
        self.held_either(Key::KeyS, Key::ArrowDown)
    }

    /// `A` or the left arrow is held.
    pub open spec fn left_held(self) -> bool {
        self.held_either(Key::KeyA, Key::ArrowLeft)
    }

    /// `D` or the right arrow is held.
    pub open spec fn right_held(self) -> bool {
        self.held_either(Key::KeyD, Key::ArrowRight)
    }

    /// `A` or the left arrow was just released.
    pub open spec fn left_released(self) -> bool {
        self.released_either(Key::KeyA, Key::ArrowLeft)
    }

    /// `D` or the right arrow was just released.
    pub open spec fn right_released(self) -> bool {
        self.released_either(Key::KeyD, Key::ArrowRight)
    }

    /// The keyboard with the given held and released keys.
    pub fn new(pressed: KeySet, just_released: KeySet) -> (r: Keyboard)
        ensures
            r.pressed == pressed,
            r.just_released == just_released,
    {
        Keyboard { pressed, just_released }
    }

    /// Whether `k` is held down.
    pub fn pressed(&self, k: Key) -> (r: bool)
        ensures
            r == self.pressed@.contains(k),
    {
        self.pressed.contains(k)
    }

    /// Whether `k` was released since the previous frame.
    pub fn just_released(&self, k: Key) -> (r: bool)
        ensures
            r == self.just_released@.contains(k),
    {
        self.just_released.contains(k)
    }
}

} // verus!

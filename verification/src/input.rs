//! The keypad. A key's bit is set while the key is released and clear while
//! it is pressed.

use vstd::prelude::*;

verus! {

/// A set of keys, one bit each.
#[derive(Debug, Clone, Copy, PartialEq, Eq, Structural)]
pub struct KeyState {
    bits: u16,
}

impl View for KeyState {
    type V = u16;

    closed spec fn view(&self) -> u16 {
        self.bits
    }
}

impl KeyState {
    pub const A: u16 = 0x0001;

    pub const B: u16 = 0x0002;

    pub const SELECT: u16 = 0x0004;

    pub const START: u16 = 0x0008;

    pub const RIGHT: u16 = 0x0010;

    pub const LEFT: u16 = 0x0020;

    pub const UP: u16 = 0x0040;

    pub const DOWN: u16 = 0x0080;

    pub const R: u16 = 0x0100;

    pub const L: u16 = 0x0200;

    /// Every key there is.
    pub const ALL: u16 = 0x03FF;

    pub fn empty() -> (r: Self)
        ensures
            r@ == 0,
    {
        KeyState { bits: 0 }
    }

    pub fn all() -> (r: Self)
        ensures
            r@ == Self::ALL,
    {
        KeyState { bits: Self::ALL }
    }

    /// The set with the given bits; bits that name no key are dropped.
    pub fn from_bits_truncate(bits: u16) -> (r: Self)
        ensures
            r@ == bits & Self::ALL,
    {
        KeyState { bits: bits & Self::ALL }
    }

    pub fn bits(&self) -> (r: u16)
        ensures
            r == self@,
    {
        self.bits
    }

    pub fn contains(&self, other: KeyState) -> (r: bool)
        ensures
            r == (self@ & other@ == other@),
    {
        self.bits & other.bits == other.bits
    }

    pub fn union(&self, other: KeyState) -> (r: Self)
        ensures
            r@ == self@ | other@,
    {
        KeyState { bits: self.bits | other.bits }
    }

    /// The keys of `self` that are not in `other`.
    pub fn difference(&self, other: KeyState) -> (r: Self)
        ensures
            r@ == self@ & !other@,
    {
        KeyState { bits: self.bits & !other.bits }
    }
}

/// The keypad's state.
pub struct Input {
    /// The keys that are released.
    pub keys: KeyState,
    /// The keys that changed since the last reset.
    pub keys_changed: KeyState,
}

impl Input {
    /// Whether every key of `key` is released.
    pub open spec fn released(self, key: KeyState) -> bool {
        self.keys@ & key@ == key@
    }

    pub fn new() -> (r: Self)
        ensures
            r.keys@ == KeyState::ALL,
            r.keys_changed@ == 0,
    {
        Input { keys: KeyState::all(), keys_changed: KeyState::empty() }
    }

    pub fn reset(&mut self)
        ensures
            final(self).keys@ == KeyState::ALL,
            final(self).keys_changed@ == 0,
    {
        self.keys = KeyState::all();
        self.keys_changed = KeyState::empty();
    }

    /// Whether a key is pressed.
    pub fn is_key_pressed(&self, key: KeyState) -> (r: bool)
        ensures
            r == !self.released(key),
    {
        !self.keys.contains(key)
    }

    /// Presses a key that is released; a key that is held stays as it is.
    pub fn press_key(&mut self, key: KeyState)
        ensures
            old(self).released(key) ==> {
                &&& final(self).keys@ == old(self).keys@ & !key@
                &&& final(self).keys_changed@ == old(self).keys_changed@ | key@
            },
            !old(self).released(key) ==> *final(self) == *old(self),
    {
        if self.keys.contains(key) {
            self.keys = self.keys.difference(key);
            self.keys_changed = self.keys_changed.union(key);
        }
    }

    /// Releases a key that is pressed; a released key stays as it is.
    pub fn release_key(&mut self, key: KeyState)
        ensures
            !old(self).released(key) ==> {
                &&& final(self).keys@ == old(self).keys@ | key@
                &&& final(self).keys_changed@ == old(self).keys_changed@ | key@
            },
            old(self).released(key) ==> *final(self) == *old(self),
    {
        if !self.keys.contains(key) {
            self.keys = self.keys.union(key);
            self.keys_changed = self.keys_changed.union(key);
        }
    }

    /// The key register: bits 0 to 9 show the released keys, the bits
    /// above are set.
    pub fn get_key_register(&self) -> (r: u16)
        ensures
            r == (self.keys@ & 0x03FF) | 0xFC00,
    {
        (self.keys.bits() & 0x03FF) | 0xFC00
    }
}

impl Default for Input {
    fn default() -> (r: Self)
        ensures
            r.keys@ == KeyState::ALL,
            r.keys_changed@ == 0,
    {
        Input::new()
    }
}

} // verus!

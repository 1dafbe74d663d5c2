//! Directional input state.
//!
//! The event loop is the host driver's business; it translates
//! whatever window events it receives into [`InputEvent`] values and
//! feeds them to [`Input::callback`], which tracks which of the four
//! movement directions are held down.

use vstd::prelude::*;

verus! {

/// The keys the movement state reacts to; any other key is `Other`.
#[derive(Copy, Clone, PartialEq, Eq, Structural, Debug)]
pub enum Key {
    W,
    A,
    S,
    D,
    Up,
    Down,
    Left,
    Right,
    Other,
}

/// One input event, as the host driver hands it over.
#[derive(Copy, Clone, PartialEq, Eq, Structural, Debug)]
pub enum InputEvent {
    KeyDown(Key),
    KeyUp(Key),
    Other,
}

/// Which movement directions are held: `1` held, `0` released.
#[derive(Copy, Clone, PartialEq, Eq, Structural, Debug)]
pub struct Input {
    pub up: i8,
    pub down: i8,
    pub left: i8,
    pub right: i8,
}

/// The state after a key changes to `v` (`1` pressed, `0` released):
/// the direction the key steers changes, the rest stay.
pub open spec fn spec_apply_key(s: Input, key: Key, v: i8) -> Input {
    match key {
        Key::W | Key::Up => Input { up: v, down: s.down, left: s.left, right: s.right },
        Key::S | Key::Down => Input { up: s.up, down: v, left: s.left, right: s.right },
        Key::A | Key::Left => Input { up: s.up, down: s.down, left: v, right: s.right },
        Key::D | Key::Right => Input { up: s.up, down: s.down, left: s.left, right: v },
        Key::Other => s,
    }
}

impl Input {
    /// No direction held.
    pub fn new() -> (r: Input)
        ensures
            r.up == 0,
            r.down == 0,
            r.left == 0,
            r.right == 0,
    {
        Input { up: 0, down: 0, left: 0, right: 0 }
    }

    /// Track one event: a key press holds its direction, a key
    /// release lets it go, anything else changes nothing.
    pub fn callback(&mut self, event: &InputEvent)
        ensures
            *final(self) == (match *event {
                InputEvent::KeyDown(key) => spec_apply_key(*old(self), key, 1),
                InputEvent::KeyUp(key) => spec_apply_key(*old(self), key, 0),
                InputEvent::Other => *old(self),
            }),
    {
        match event {
            InputEvent::KeyDown(key) => {
                self.apply_key(*key, 1);
            },
            InputEvent::KeyUp(key) => {
                self.apply_key(*key, 0);
            },
            InputEvent::Other => {},
        }
    }

    /// Set the direction `key` steers to `v`.
    fn apply_key(&mut self, key: Key, v: i8)
        ensures
            *final(self) == spec_apply_key(*old(self), key, v),
    {
        match key {
            Key::W | Key::Up => {
                self.up = v;
            },
            Key::S | Key::Down => {
                self.down = v;
            },
            Key::A | Key::Left => {
                self.left = v;
            },
            Key::D | Key::Right => {
                self.right = v;
            },
            Key::Other => {},
        }
    }
}

} // verus!

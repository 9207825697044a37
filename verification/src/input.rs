//! Aggregated keyboard and pointer state with edge flags.
//!
//! The state is updated only by the event-pump collaborator through the
//! setters below, and is read by the systems.  `left_tap` is the
//! edge-triggered "just pressed" flag, cleared by its first reader;
//! `left_down` is the continuous "held" flag and is cleared only by the
//! release event.

use vstd::prelude::*;

verus! {

/// Directional keys the player systems read.
#[derive(Clone, Copy, PartialEq, Eq, Structural, Debug)]
pub enum Key {
    W,
    A,
    S,
    D,
}

/// Held state of the directional keys.
#[derive(Clone, Copy, PartialEq, Eq, Structural, Debug)]
pub struct Keyboard {
    pub w: bool,
    pub a: bool,
    pub s: bool,
    pub d: bool,
}

/// Pointer position and button state.
#[derive(Clone, Copy, PartialEq, Eq, Structural, Debug)]
pub struct Mouse {
    pub x: i32,
    pub y: i32,
    /// Edge flag: the button went down and no system consumed it yet.
    pub left_tap: bool,
    /// Level flag: the button is currently held.
    pub left_down: bool,
}

/// Aggregated input state owned by one scene.
#[derive(Clone, Copy, PartialEq, Eq, Structural, Debug)]
pub struct Input {
    pub keyboard: Keyboard,
    pub mouse: Mouse,
}

/// The keyboard with one key replaced.
pub open spec fn spec_set_key(k: Keyboard, key: Key, down: bool) -> Keyboard {
    match key {
        Key::W => Keyboard { w: down, ..k },
        Key::A => Keyboard { a: down, ..k },
        Key::S => Keyboard { s: down, ..k },
        Key::D => Keyboard { d: down, ..k },
    }
}

impl Input {
    /// The initial state: no key held, pointer at the origin, no press.
    pub open spec fn new_spec() -> Input {
        Input {
            keyboard: Keyboard { w: false, a: false, s: false, d: false },
            mouse: Mouse { x: 0, y: 0, left_tap: false, left_down: false },
        }
    }

    pub fn new() -> (i: Self)
        ensures
            i == Input::new_spec(),
    {
        Input {
            keyboard: Keyboard { w: false, a: false, s: false, d: false },
            mouse: Mouse { x: 0, y: 0, left_tap: false, left_down: false },
        }
    }

    /// Key-down / key-up event.
    pub fn set_key(&mut self, key: Key, down: bool)
        ensures
            final (self).keyboard == spec_set_key(old(self).keyboard, key, down),
            final (self).mouse == old(self).mouse,
    {
        match key {
            Key::W => self.keyboard.w = down,
            Key::A => self.keyboard.a = down,
            Key::S => self.keyboard.s = down,
            Key::D => self.keyboard.d = down,
        }
    }

    /// Pointer-move event.
    pub fn set_pointer(&mut self, x: i32, y: i32)
        ensures
            final (self).mouse == (Mouse { x, y, ..old(self).mouse }),
            final (self).keyboard == old(self).keyboard,
    {
        self.mouse.x = x;
        self.mouse.y = y;
    }

    /// Left-button-down event: raises both the edge flag and the held flag.
    pub fn press_left(&mut self)
        ensures
            final (self).mouse == (Mouse { left_tap: true, left_down: true, ..old(self).mouse }),
            final (self).keyboard == old(self).keyboard,
    {
        self.mouse.left_tap = true;
        self.mouse.left_down = true;
    }

    /// Left-button-up event: clears the held flag only; an unconsumed edge
    /// flag stays pending.
    pub fn release_left(&mut self)
        ensures
            final (self).mouse == (Mouse { left_down: false, ..old(self).mouse }),
            final (self).keyboard == old(self).keyboard,
    {
        self.mouse.left_down = false;
    }
}

} // verus!

//! The controller state: four independent directional flags, set and cleared
//! by the host's key events and read once per simulated frame.

use vstd::prelude::*;

verus! {

/// The four logical gameplay buttons.
#[derive(Clone, Copy, Debug, PartialEq, Eq, Structural)]
pub enum Button {
    Left,
    Right,
    Up,
    Down,
}

/// The directional flags, with no history.
#[derive(Clone, Copy, Debug, PartialEq, Eq, Structural)]
pub struct ControllerState {
    pub left: bool,
    pub right: bool,
    pub up: bool,
    pub down: bool,
}

impl ControllerState {
    /// All buttons released.
    pub fn new() -> (c: ControllerState)
        ensures
            c == (ControllerState { left: false, right: false, up: false, down: false }),
    {
        ControllerState { left: false, right: false, up: false, down: false }
    }

    /// Record one button's press or release, leaving the others alone.
    pub fn set(&mut self, button: Button, pressed: bool)
        ensures
            final(self).left == if button == Button::Left { pressed } else { old(self).left },
            final(self).right == if button == Button::Right { pressed } else { old(self).right },
            final(self).up == if button == Button::Up { pressed } else { old(self).up },
            final(self).down == if button == Button::Down { pressed } else { old(self).down },
    {
        match button {
            Button::Left => self.left = pressed,
            Button::Right => self.right = pressed,
            Button::Up => self.up = pressed,
            Button::Down => self.down = pressed,
        }
    }
}

impl Default for ControllerState {
    /// All buttons released.
    fn default() -> (c: ControllerState)
        ensures
            c == (ControllerState { left: false, right: false, up: false, down: false }),
    {
        ControllerState::new()
    }
}

} // verus!

//! One frame's snapshot of the input devices, as the driver polled it.
//! Analog axes are in thousandths (`-1000 ..= 1000` for a full deflection).

use vstd::prelude::*;
use crate::geometry::{SUBPIXELS, Vec2};

verus! {

/// An analog stick deflection below this (in thousandths) counts as no input.
pub const DEADZONE: i64 = 100;

/// A trigger pulled past this (in thousandths) fires.
pub const TRIGGER_THRESHOLD: i64 = 500;

/// The state of one gamepad slot.
#[derive(Clone, Copy, Debug, PartialEq, Eq, Structural)]
pub struct GamepadState {
    /// A device is attached to the slot.
    pub available: bool,
    /// Left stick, horizontal.
    pub left_x: i16,
    /// Right stick, horizontal.
    pub right_x: i16,
    /// Right stick, vertical.
    pub right_y: i16,
    /// Right trigger.
    pub right_trigger: i16,
    /// The lower face button went down this frame.
    pub jump_pressed: bool,
}

/// The keys of both fixed bindings: `_down` is held, `_pressed` went down this frame.
#[derive(Clone, Copy, Debug, PartialEq, Eq, Structural)]
pub struct KeyboardState {
    pub a_down: bool,
    pub d_down: bool,
    pub w_pressed: bool,
    pub space_pressed: bool,
    pub left_down: bool,
    pub right_down: bool,
    pub up_pressed: bool,
    pub right_control_pressed: bool,
    pub enter_pressed: bool,
}

/// The mouse: its position in whole pixels, and whether the left button went down.
#[derive(Clone, Copy, Debug, PartialEq, Eq, Structural)]
pub struct MouseState {
    pub x: i32,
    pub y: i32,
    pub left_pressed: bool,
}

/// Everything a scene reads from the devices in one frame.
#[derive(Debug, PartialEq, Eq)]
pub struct FrameInput {
    /// Milliseconds since the previous frame.
    pub dt_ms: u32,
    /// Gamepad slots, indexed by a combatant's `input_id`.
    pub gamepads: Vec<GamepadState>,
    pub keys: KeyboardState,
    pub mouse: MouseState,
}

impl MouseState {
    /// The mouse position in world units.
    pub open spec fn point(self) -> Vec2 {
        Vec2 { x: (self.x * SUBPIXELS) as i64, y: (self.y * SUBPIXELS) as i64 }
    }

    /// The mouse position in micro-pixels.
    pub fn position(&self) -> (r: Vec2)
        ensures
            r == self.point(),
    {
        Vec2 { x: self.x as i64 * SUBPIXELS, y: self.y as i64 * SUBPIXELS }
    }
}

impl FrameInput {
    /// The gamepad in slot `id`, if one is attached there.
    pub open spec fn gamepad(self, id: int) -> Option<GamepadState> {
        if 0 <= id < self.gamepads@.len() && self.gamepads@[id].available {
            Some(self.gamepads@[id])
        } else {
            None
        }
    }

    /// The gamepad in slot `id`, if one is attached there.
    pub fn gamepad_for(&self, id: i32) -> (r: Option<GamepadState>)
        ensures
            r == self.gamepad(id as int),
    {
        if id >= 0 && (id as usize) < self.gamepads.len() && self.gamepads[id as usize].available {
            Some(self.gamepads[id as usize])
        } else {
            None
        }
    }
}

} // verus!

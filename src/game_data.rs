//! The data of one game session, shared by every scene.

use vstd::prelude::*;
use crate::geometry::{Rect, SUBPIXELS};

verus! {

/// Pixels between the bottom of the screen and the floor line.
pub const FLOOR_GAP: i64 = 5;

/// Session state: the score, the screen's size and how many frames the run
/// animations have. The textures themselves stay with the driver.
#[derive(Clone, Copy, Debug, PartialEq, Eq, Structural)]
pub struct GameData {
    pub points: u32,
    /// In pixels.
    pub screen_width: i32,
    /// In pixels.
    pub screen_height: i32,
    /// Frames in each run animation.
    pub run_frames: usize,
    pub p1_facing_left: bool,
    pub p2_facing_left: bool,
}

impl GameData {
    /// A session with no points; the first combatant faces right, the second left.
    pub fn new(width: i32, height: i32, run_frames: usize) -> (r: GameData)
        ensures
            r == (GameData {
                points: 0,
                screen_width: width,
                screen_height: height,
                run_frames,
                p1_facing_left: false,
                p2_facing_left: true,
            }),
    {
        GameData {
            points: 0,
            screen_width: width,
            screen_height: height,
            run_frames,
            p1_facing_left: false,
            p2_facing_left: true,
        }
    }

    /// Adds one to the player's total points.
    pub fn score(&mut self)
        requires
            old(self).points < u32::MAX,
        ensures
            *final(self) == (GameData { points: (old(self).points + 1) as u32, ..*old(self) }),
    {
        self.points = self.points + 1;
    }

    /// The visible field, in micro-pixels.
    pub open spec fn field(self) -> Rect {
        Rect {
            x: 0,
            y: 0,
            width: (self.screen_width * SUBPIXELS) as i64,
            height: (self.screen_height * SUBPIXELS) as i64,
        }
    }

    /// The visible field, in micro-pixels.
    pub fn field_rect(&self) -> (r: Rect)
        ensures
            r == self.field(),
    {
        Rect {
            x: 0,
            y: 0,
            width: self.screen_width as i64 * SUBPIXELS,
            height: self.screen_height as i64 * SUBPIXELS,
        }
    }

    /// The floor line, in micro-pixels.
    pub open spec fn floor(self) -> i64 {
        ((self.screen_height - FLOOR_GAP) * SUBPIXELS) as i64
    }

    /// The floor line, in micro-pixels.
    pub fn floor_line(&self) -> (r: i64)
        ensures
            r == self.floor(),
            -0x10_0000_0000_0000 <= r <= 0x10_0000_0000_0000,
    {
        (self.screen_height as i64 - FLOOR_GAP) * SUBPIXELS
    }
}

} // verus!

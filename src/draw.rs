//! What a scene paints, as plain values: the driver hands each command to the
//! graphics library in order. Every position and length is in micro-pixels.

use vstd::prelude::*;
use crate::geometry::{Color, Rect, Vec2};

verus! {

/// The sprite sheets that the asset provider holds.
#[derive(Clone, Copy, Debug, PartialEq, Eq, Structural)]
pub enum Sheet {
    Background,
    Player1Run,
    Player2Run,
    Player1Idle,
    Player2Idle,
    Obstacle,
}

/// One drawing primitive.
#[derive(Clone, Copy, Debug, PartialEq, Eq)]
pub enum DrawCmd {
    /// Fill the whole surface.
    Clear { color: Color },
    /// A filled rectangle.
    Rectangle { rect: Rect, color: Color },
    /// A line of text whose top-left corner is `at`.
    Text { text: &'static str, at: Vec2, size: i64, color: Color },
    /// A line of text followed by a number in decimal.
    Number { label: &'static str, value: u32, at: Vec2, size: i64, color: Color },
    /// The region `source` of frame `frame` of a sheet, stretched over `dest` and
    /// placed relative to `origin`; a negative source width mirrors it.
    Sprite { sheet: Sheet, frame: usize, source: Rect, dest: Rect, origin: Vec2, tint: Color },
    /// A straight line.
    Line { from: Vec2, to: Vec2, color: Color },
    /// A filled circle.
    Circle { center: Vec2, radius: i64, color: Color },
}

} // verus!

use vstd::prelude::*;
use crate::draw::DrawCmd;
use crate::geometry::{Color, Rect, Vec2, SUBPIXELS, WORLD_LIMIT, to_world, world};

verus! {

/// The radius of a projectile, for collisions and for drawing.
pub const PROJECTILE_RADIUS: i64 = 10 * SUBPIXELS;

/// How far past the edge of the field a projectile may fly before it is dropped.
pub const FIELD_MARGIN: i64 = 100 * SUBPIXELS;

/// A transient hazard fired by a combatant.
#[derive(Clone, Copy, Debug, PartialEq, Eq, Structural)]
pub struct Projectile {
    /// Centre, in micro-pixels.
    pub pos: Vec2,
    /// Milli-pixels per second.
    pub vel: Vec2,
    pub color: Color,
    pub active: bool,
    /// The `input_id` of the combatant that fired it.
    pub owner_id: i32,
}

/// A coordinate after moving for `dt` milliseconds at `vel` milli-pixels per second.
pub open spec fn advanced(pos: int, vel: int, dt: int) -> int {
    world(pos + vel * dt)
}

/// The point lies outside the field widened by `FIELD_MARGIN` on every side.
pub open spec fn out_of_bounds(p: Vec2, field: Rect) -> bool {
    ||| p.x < field.x - FIELD_MARGIN
    ||| p.x > field.x + field.width + FIELD_MARGIN
    ||| p.y < field.y - FIELD_MARGIN
    ||| p.y > field.y + field.height + FIELD_MARGIN
}

/// One coordinate advanced, on machine integers.
pub fn advance(pos: i64, vel: i64, dt: u32) -> (r: i64)
    ensures
        r == advanced(pos as int, vel as int, dt as int),
        -WORLD_LIMIT <= r <= WORLD_LIMIT,
{
    assert(-0x8000_0000_0000_0000_0000_0000 <= vel * dt <= 0x8000_0000_0000_0000_0000_0000)
        by (nonlinear_arith)
        requires
            i64::MIN <= vel <= i64::MAX,
            0 <= dt <= u32::MAX,
    ;
    to_world(pos as i128 + vel as i128 * dt as i128)
}

impl Projectile {
    /// A live projectile.
    pub fn new(pos: Vec2, vel: Vec2, owner_id: i32, color: Color) -> (r: Projectile)
        ensures
            r == (Projectile { pos, vel, color, active: true, owner_id }),
    {
        Projectile { pos, vel, color, active: true, owner_id }
    }

    /// The projectile after one step of `dt` milliseconds over `field`: it moves, and
    /// stops being active once it is out of bounds.
    pub open spec fn moved(self, dt: u32, field: Rect) -> Projectile {
        let pos = Vec2 {
            x: advanced(self.pos.x as int, self.vel.x as int, dt as int) as i64,
            y: advanced(self.pos.y as int, self.vel.y as int, dt as int) as i64,
        };
        Projectile { pos, active: self.active && !out_of_bounds(pos, field), ..self }
    }

    /// Moves the projectile, and deactivates it once it has left the field's margin.
    pub fn update(&mut self, dt: u32, field: &Rect)
        ensures
            *final(self) == old(self).moved(dt, *field),
    {
        self.pos = Vec2 {
            x: advance(self.pos.x, self.vel.x, dt),
            y: advance(self.pos.y, self.vel.y, dt),
        };
        let x = self.pos.x as i128;
        let y = self.pos.y as i128;
        let margin = FIELD_MARGIN as i128;
        if x < field.x as i128 - margin || x > field.x as i128 + field.width as i128 + margin
            || y < field.y as i128 - margin || y > field.y as i128 + field.height as i128
            + margin {
            self.active = false;
        }
    }

    /// How the projectile is painted.
    pub open spec fn picture(self) -> DrawCmd {
        DrawCmd::Circle { center: self.pos, radius: PROJECTILE_RADIUS, color: self.color }
    }

    /// A filled circle at the projectile's centre.
    pub fn draw(&self) -> (r: DrawCmd)
        ensures
            r == self.picture(),
    {
        DrawCmd::Circle { center: self.pos, radius: PROJECTILE_RADIUS, color: self.color }
    }
}

} // verus!

use vstd::prelude::*;
use crate::geometry::{Rect, Vec2, SUBPIXELS};

verus! {

/// Whether `point` lies inside `rect`, borders included.
pub fn check_collision_point_rect(point: &Vec2, rect: &Rect) -> (r: bool)
    ensures
        r == rect.holds(*point),
{
    let in_x = point.x >= rect.x && point.x as i128 <= rect.x as i128 + rect.width as i128;
    let in_y = point.y >= rect.y && point.y as i128 <= rect.y as i128 + rect.height as i128;
    in_x && in_y
}

/// The point of the interval `lo ..= lo + len` nearest to `c`.
pub open spec fn nearest(c: int, lo: int, len: int) -> int {
    if c < lo {
        lo
    } else if c > lo + len {
        lo + len
    } else {
        c
    }
}

/// The circle of the given centre and radius meets the rectangle: the rectangle's
/// point nearest to the centre is at most `radius` away from it.
pub open spec fn circle_meets_rect(center: Vec2, radius: int, rec: Rect) -> bool {
    let dx = center.x - nearest(center.x as int, rec.x as int, rec.width as int);
    let dy = center.y - nearest(center.y as int, rec.y as int, rec.height as int);
    radius >= 0 && dx * dx + dy * dy <= radius * radius
}

/// `nearest`, on machine integers.
fn nearest_of(c: i64, lo: i64, len: i64) -> (r: i128)
    ensures
        r == nearest(c as int, lo as int, len as int),
{
    let hi: i128 = lo as i128 + len as i128;
    if (c as i128) < lo as i128 {
        lo as i128
    } else if c as i128 > hi {
        hi
    } else {
        c as i128
    }
}

/// Whether a circle (a projectile) touches a rectangle (a combatant's hurtbox).
pub fn check_collision_circle_rec(center: Vec2, radius: i64, rec: Rect) -> (r: bool)
    ensures
        r == circle_meets_rect(center, radius as int, rec),
{
    let dx: i128 = center.x as i128 - nearest_of(center.x, rec.x, rec.width);
    let dy: i128 = center.y as i128 - nearest_of(center.y, rec.y, rec.height);
    let rad: i128 = radius as i128;
    if radius < 0 {
        return false;
    }
    if dx > rad || -dx > rad || dy > rad || -dy > rad {
        assert(dx * dx + dy * dy > rad * rad) by (nonlinear_arith)
            requires
                0 <= rad,
                dx > rad || -dx > rad || dy > rad || -dy > rad,
        ;
        return false;
    }
    assert(dx * dx <= rad * rad && dy * dy <= rad * rad && 0 <= dx * dx && 0 <= dy * dy)
        by (nonlinear_arith)
        requires
            0 <= rad,
            -rad <= dx <= rad,
            -rad <= dy <= rad,
    ;
    assert(rad * rad <= 0x3fff_ffff_ffff_ffff_0000_0000_0000_0001) by (nonlinear_arith)
        requires
            0 <= rad <= 0x7fff_ffff_ffff_ffff,
    ;
    dx * dx + dy * dy <= rad * rad
}

/// Relies on rand's `rand::rng()` and `Rng::random_range`: on the non-empty range `0..n`
/// it returns a value of that range.
#[verifier::external_body]
fn random_below(n: i32) -> (r: i32)
    requires
        n > 0,
    ensures
        0 <= r < n,
{
    rand::Rng::random_range(&mut rand::rng(), 0..n)
}

/// A random point of whole pixels within a `width` by `height` field, in micro-pixels.
pub fn random_point(width: i32, height: i32) -> (r: Vec2)
    requires
        width > 0,
        height > 0,
    ensures
        r.x % SUBPIXELS == 0,
        r.y % SUBPIXELS == 0,
        0 <= r.x < width * SUBPIXELS,
        0 <= r.y < height * SUBPIXELS,
{
    let x = random_below(width);
    let y = random_below(height);
    Vec2 { x: x as i64 * SUBPIXELS, y: y as i64 * SUBPIXELS }
}

} // verus!

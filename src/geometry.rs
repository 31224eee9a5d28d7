use vstd::prelude::*;

verus! {

/// Micro-pixels in one pixel.
pub const SUBPIXELS: i64 = 1_000_000;

/// World coordinates are held within `-WORLD_LIMIT ..= WORLD_LIMIT` micro-pixels
/// (2^60, about a million screens); movement past that bound saturates.
pub const WORLD_LIMIT: i64 = 1_152_921_504_606_846_976;

/// Directions are unit vectors scaled by this factor (thousandths).
pub const UNIT: i64 = 1000;

/// A point or a vector of integers (world points are in micro-pixels).
#[derive(Clone, Copy, Debug, PartialEq, Eq, Structural)]
pub struct Vec2 {
    pub x: i64,
    pub y: i64,
}

/// An axis-aligned rectangle: its top-left corner and its extent.
#[derive(Clone, Copy, Debug, PartialEq, Eq, Structural)]
pub struct Rect {
    pub x: i64,
    pub y: i64,
    pub width: i64,
    pub height: i64,
}

/// The colours that the game paints with.
#[derive(Clone, Copy, Debug, PartialEq, Eq, Structural)]
pub enum Color {
    White,
    Black,
    Red,
    Blue,
}

/// `n` whole pixels, in micro-pixels.
pub open spec fn px(n: int) -> i64 {
    (n * SUBPIXELS) as i64
}

/// `v` limited to the closed interval `lo ..= hi` (where `lo <= hi`).
pub open spec fn clamp(v: int, lo: int, hi: int) -> int {
    if v < lo {
        lo
    } else if v > hi {
        hi
    } else {
        v
    }
}

/// `v` saturated to the world's extent.
pub open spec fn world(v: int) -> int {
    clamp(v, -WORLD_LIMIT, WORLD_LIMIT as int)
}

/// `v` saturated to the range of `i64`.
pub open spec fn saturated(v: int) -> int {
    clamp(v, i64::MIN as int, i64::MAX as int)
}

/// A point within the world's extent.
pub open spec fn in_world(p: Vec2) -> bool {
    -WORLD_LIMIT <= p.x <= WORLD_LIMIT && -WORLD_LIMIT <= p.y <= WORLD_LIMIT
}

/// Saturates a wide intermediate value to the world's extent.
pub fn to_world(v: i128) -> (r: i64)
    ensures
        r == world(v as int),
{
    if v < -(WORLD_LIMIT as i128) {
        -WORLD_LIMIT
    } else if v > WORLD_LIMIT as i128 {
        WORLD_LIMIT
    } else {
        v as i64
    }
}

/// Saturates a wide intermediate value to the range of `i64`.
pub fn to_i64(v: i128) -> (r: i64)
    ensures
        r == saturated(v as int),
{
    if v < i64::MIN as i128 {
        i64::MIN
    } else if v > i64::MAX as i128 {
        i64::MAX
    } else {
        v as i64
    }
}

/// `r` is the integer square root of `n`.
pub open spec fn is_root(n: int, r: int) -> bool {
    0 <= r && r * r <= n < (r + 1) * (r + 1)
}

/// The integer square root: the largest `r` with `r * r <= n`.
pub open spec fn root(n: int) -> int {
    choose|r: int| is_root(n, r)
}

/// Squares grow with their (non-negative) roots.
pub proof fn lemma_square_monotonic(a: int, b: int)
    requires
        0 <= a <= b,
    ensures
        a * a <= b * b,
{
    assert(a * a <= a * b) by (nonlinear_arith)
        requires
            0 <= a <= b,
    ;
    assert(a * b <= b * b) by (nonlinear_arith)
        requires
            0 <= a <= b,
    ;
}

/// There is at most one integer square root.
pub proof fn lemma_root_unique(n: int, a: int, b: int)
    requires
        is_root(n, a),
        is_root(n, b),
    ensures
        a == b,
{
    if a < b {
        lemma_square_monotonic(a + 1, b);
    } else if b < a {
        lemma_square_monotonic(b + 1, a);
    }
}

/// The integer square root of `n`, by bisection.
pub fn isqrt(n: u128) -> (r: u64)
    requires
        n < 0x4000_0000_0000_0000_0000_0000_0000_0000,
    ensures
        is_root(n as int, r as int),
        r as int == root(n as int),
        r < 0x8000_0000_0000_0000,
{
    let mut lo: u128 = 0;
    let mut hi: u128 = 0x8000_0000_0000_0000;
    assert(hi * hi == 0x4000_0000_0000_0000_0000_0000_0000_0000);
    while hi - lo > 1
        invariant
            lo < hi <= 0x8000_0000_0000_0000,
            lo * lo <= n,
            n < hi * hi,
        decreases hi - lo,
    {
        let mid: u128 = lo + (hi - lo) / 2;
        proof {
            lemma_square_monotonic(mid as int, 0x8000_0000_0000_0000);
        }
        if mid * mid <= n {
            lo = mid;
        } else {
            hi = mid;
        }
    }
    assert(is_root(n as int, lo as int));
    proof {
        lemma_root_unique(n as int, lo as int, root(n as int));
    }
    lo as u64
}

/// `a / b` rounded toward zero, for `b > 0`.
pub open spec fn div_toward_zero(a: int, b: int) -> int {
    if a >= 0 {
        a / b
    } else {
        -((-a) / b)
    }
}

/// The length of `(dx, dy)`, rounded down.
pub open spec fn length(dx: int, dy: int) -> int {
    root(dx * dx + dy * dy)
}

/// One coordinate of the direction of `(dx, dy)`, in thousandths.
pub open spec fn unit_part(c: int, dx: int, dy: int) -> int {
    div_toward_zero(c * UNIT, length(dx, dy))
}

/// The direction of `(dx, dy)` as a unit vector in thousandths.
pub open spec fn unit_of(dx: int, dy: int) -> Vec2 {
    Vec2 { x: unit_part(dx, dx, dy) as i64, y: unit_part(dy, dx, dy) as i64 }
}

/// A coordinate `c` of a vector whose rounded length is `len` is at most `len` in magnitude.
proof fn lemma_part_within_length(c: int, n: int, len: int)
    requires
        c * c <= n,
        is_root(n, len),
    ensures
        -len <= c <= len,
{
    if c > len {
        lemma_square_monotonic(len + 1, c);
    } else if c < -len {
        lemma_square_monotonic(len + 1, -c);
        assert((-c) * (-c) == c * c) by (nonlinear_arith);
    }
}

/// `mag * UNIT / len`, for a magnitude no larger than `len`.
fn scale_part(mag: u128, len: u128) -> (r: i64)
    requires
        0 < len,
        mag <= len,
        len < 0x8000_0000_0000_0000,
    ensures
        r == (mag * UNIT) / (len as int),
        0 <= r <= UNIT,
{
    assert(mag * 1000 <= len * 1000) by (nonlinear_arith)
        requires
            mag <= len,
    ;
    let q: u128 = mag * 1000 / len;
    assert(q <= 1000) by (nonlinear_arith)
        requires
            q == (mag * 1000) / (len as int),
            mag * 1000 <= len * 1000,
            0 < len,
    ;
    q as i64
}

/// The direction of `(dx, dy)`: a unit vector in thousandths, each coordinate rounded
/// toward zero.
pub fn unit_vector(dx: i128, dy: i128) -> (r: Vec2)
    requires
        dx != 0 || dy != 0,
        -0x4000_0000_0000_0000 <= dx <= 0x4000_0000_0000_0000,
        -0x4000_0000_0000_0000 <= dy <= 0x4000_0000_0000_0000,
    ensures
        r == unit_of(dx as int, dy as int),
        -UNIT <= r.x <= UNIT,
        -UNIT <= r.y <= UNIT,
{
    let ghost n: int = dx * dx + dy * dy;
    assert(0 <= dx * dx <= 0x1000_0000_0000_0000_0000_0000_0000_0000) by (nonlinear_arith)
        requires
            -0x4000_0000_0000_0000 <= dx <= 0x4000_0000_0000_0000,
    ;
    assert(0 <= dy * dy <= 0x1000_0000_0000_0000_0000_0000_0000_0000) by (nonlinear_arith)
        requires
            -0x4000_0000_0000_0000 <= dy <= 0x4000_0000_0000_0000,
    ;
    assert(n >= 1) by (nonlinear_arith)
        requires
            dx != 0 || dy != 0,
            n == dx * dx + dy * dy,
    ;
    let sum: u128 = (dx * dx + dy * dy) as u128;
    let len: u64 = isqrt(sum);
    if len == 0 {
        assert(false) by (nonlinear_arith)
            requires
                n >= 1,
                n < (len + 1) * (len + 1),
                len == 0,
        ;
    }
    proof {
        lemma_part_within_length(dx as int, n, len as int);
        lemma_part_within_length(dy as int, n, len as int);
    }
    let mx: u128 = if dx < 0 { (-dx) as u128 } else { dx as u128 };
    let my: u128 = if dy < 0 { (-dy) as u128 } else { dy as u128 };
    let qx = scale_part(mx, len as u128);
    let qy = scale_part(my, len as u128);
    let x = if dx < 0 { -qx } else { qx };
    let y = if dy < 0 { -qy } else { qy };
    assert(dx * 1000 == (if dx < 0 { -(mx * 1000) } else { mx * 1000 }));
    assert(dy * 1000 == (if dy < 0 { -(my * 1000) } else { my * 1000 }));
    Vec2 { x, y }
}

impl Vec2 {
    pub fn new(x: i64, y: i64) -> (r: Vec2)
        ensures
            r.x == x,
            r.y == y,
    {
        Vec2 { x, y }
    }

    pub fn zero() -> (r: Vec2)
        ensures
            r.x == 0,
            r.y == 0,
    {
        Vec2 { x: 0, y: 0 }
    }
}

impl Rect {
    pub fn new(x: i64, y: i64, width: i64, height: i64) -> (r: Rect)
        ensures
            r == (Rect { x, y, width, height }),
    {
        Rect { x, y, width, height }
    }

    /// `v` lies in the closed interval from `lo` to `lo + len`.
    pub open spec fn spans(lo: int, len: int, v: int) -> bool {
        lo <= v <= lo + len
    }

    /// The point lies inside the rectangle or on its border.
    pub open spec fn holds(self, p: Vec2) -> bool {
        Self::spans(self.x as int, self.width as int, p.x as int)
            && Self::spans(self.y as int, self.height as int, p.y as int)
    }
}

} // verus!

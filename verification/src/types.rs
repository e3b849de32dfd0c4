//! Fixed-point scalars and the small geometric values built from them.
//!
//! A scalar is an `i64` counting steps of `1 / UNIT`: a length in world
//! units, an angle in radians, or a dimensionless factor. Sums saturate at
//! the ends of the `i64` range instead of wrapping.

use vstd::prelude::*;

verus! {

/// Number of fixed-point steps in one whole unit.
pub const UNIT: i64 = 65536;

/// A full turn (two pi radians), rounded to the nearest step.
pub const TAU: i64 = 411775;

/// The `i64` nearest to `v`.
pub open spec fn saturate(v: int) -> i64 {
    if v < i64::MIN {
        i64::MIN
    } else if v > i64::MAX {
        i64::MAX
    } else {
        v as i64
    }
}

/// `v` limited to the interval from `low` to `high`; `low` wins where the
/// interval is empty.
pub open spec fn clamped(v: i64, low: i64, high: i64) -> i64 {
    if v < low {
        low
    } else if v > high {
        high
    } else {
        v
    }
}

/// `v` divided by four, rounded towards zero.
pub open spec fn quartered(v: i64) -> i64 {
    if v >= 0 {
        (v / 4) as i64
    } else {
        (-((-v) / 4)) as i64
    }
}

/// Saturating sum of two scalars.
pub fn plus(a: i64, b: i64) -> (r: i64)
    ensures
        r == saturate(a + b),
{
    if b > 0 && a > i64::MAX - b {
        i64::MAX
    } else if b < 0 && a < i64::MIN - b {
        i64::MIN
    } else {
        a + b
    }
}

/// Saturating difference of two scalars.
pub fn minus(a: i64, b: i64) -> (r: i64)
    ensures
        r == saturate(a - b),
{
    if b < 0 && a > i64::MAX + b {
        i64::MAX
    } else if b > 0 && a < i64::MIN + b {
        i64::MIN
    } else {
        a - b
    }
}

/// Saturating negation of a scalar.
pub fn negated(a: i64) -> (r: i64)
    ensures
        r == saturate(-a),
{
    if a == i64::MIN {
        i64::MAX
    } else {
        -a
    }
}

/// `v` limited to the interval from `low` to `high`.
pub fn clamp(v: i64, low: i64, high: i64) -> (r: i64)
    ensures
        r == clamped(v, low, high),
{
    if v < low {
        low
    } else if v > high {
        high
    } else {
        v
    }
}

/// A quarter of `v`, rounded towards zero.
pub fn quarter(v: i64) -> (r: i64)
    ensures
        r == quartered(v),
{
    v / 4
}

/// A location in the game world.
#[derive(Clone, Copy, Debug, PartialEq, Eq, Structural)]
pub struct Point2 {
    pub x: i64,
    pub y: i64,
}

/// A displacement in the game world.
#[derive(Clone, Copy, Debug, PartialEq, Eq, Structural)]
pub struct Vector2 {
    pub x: i64,
    pub y: i64,
}

/// An axis-aligned rectangle given by one corner and its extent.
#[derive(Clone, Copy, Debug, PartialEq, Eq, Structural)]
pub struct Rect {
    pub x: i64,
    pub y: i64,
    pub w: i64,
    pub h: i64,
}

/// The point with the given coordinates.
pub fn point2(x: i64, y: i64) -> (p: Point2)
    ensures
        p == (Point2 { x, y }),
{
    Point2 { x, y }
}

/// The vector with the given components.
pub fn vec2(x: i64, y: i64) -> (v: Vector2)
    ensures
        v == (Vector2 { x, y }),
{
    Vector2 { x, y }
}

impl Point2 {
    /// The point reached from `self` by the displacement `v`.
    pub open spec fn moved_by(self, v: Vector2) -> Point2 {
        Point2 { x: saturate(self.x + v.x), y: saturate(self.y + v.y) }
    }

    /// The point reached from `self` by the displacement `v`.
    pub fn translate(self, v: Vector2) -> (p: Point2)
        ensures
            p == self.moved_by(v),
    {
        Point2 { x: plus(self.x, v.x), y: plus(self.y, v.y) }
    }
}

} // verus!

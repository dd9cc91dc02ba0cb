//! Places in the world, in exact arithmetic.

use vstd::prelude::*;

verus! {

/// Ticks per length unit: a coordinate of a place counts millionths.
pub const TICKS: i64 = 1_000_000;

/// A place in the world.
#[derive(Debug, Clone, Copy, PartialEq, Eq, Structural)]
pub struct Point {
    pub x: i64,
    pub y: i64,
    pub z: i64,
}

/// The mean of two coordinates, rounded down.
pub open spec fn mean(a: i64, b: i64) -> int {
    (a + b) / 2
}

/// The place half way between two places, coordinate by coordinate.
pub open spec fn midpoint_spec(a: Point, b: Point) -> Point {
    Point { x: mean(a.x, b.x) as i64, y: mean(a.y, b.y) as i64, z: mean(a.z, b.z) as i64 }
}

/// A coordinate moved by `by`, kept within the range of coordinates.
pub open spec fn nudged(c: i64, by: i64) -> int {
    if c + by > i64::MAX {
        i64::MAX as int
    } else if c + by < i64::MIN {
        i64::MIN as int
    } else {
        c + by
    }
}

/// The mean of two coordinates, rounded down.
pub fn mean_of(a: i64, b: i64) -> (m: i64)
    ensures
        m == mean(a, b),
        2 * m <= a + b <= 2 * m + 1,
{
    let s: i128 = a as i128 + b as i128;
    if s >= 0 {
        (s / 2) as i64
    } else {
        let h: i128 = (1 - s) / 2;
        (-h) as i64
    }
}

/// A coordinate moved by `by`, kept within the range of coordinates.
pub fn nudge(c: i64, by: i64) -> (r: i64)
    ensures
        r == nudged(c, by),
{
    let s: i128 = c as i128 + by as i128;
    if s > i64::MAX as i128 {
        i64::MAX
    } else if s < i64::MIN as i128 {
        i64::MIN
    } else {
        s as i64
    }
}

impl Point {
    /// The place half way between two places: the mean of each coordinate.
    pub fn midpoint(a: Point, b: Point) -> (m: Point)
        ensures
            m == midpoint_spec(a, b),
            m.x == mean(a.x, b.x),
            m.y == mean(a.y, b.y),
            m.z == mean(a.z, b.z),
    {
        Point { x: mean_of(a.x, b.x), y: mean_of(a.y, b.y), z: mean_of(a.z, b.z) }
    }
}

/// The place half way between a place and itself is the place, and the
/// place half way between two places does not depend on their order.
pub proof fn lemma_midpoint(a: Point, b: Point)
    ensures
        midpoint_spec(a, a) == a,
        midpoint_spec(a, b) == midpoint_spec(b, a),
{
}

} // verus!

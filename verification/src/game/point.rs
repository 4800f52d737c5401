//! A pair of integer coordinates.

use vstd::prelude::*;

verus! {

/// The largest coordinate a new point takes.
pub const MAX_COORDINATE: i32 = 0x3fff_ffff;

/// The smallest coordinate a new point takes.
pub const MIN_COORDINATE: i32 = -0x4000_0000;

/// A position or a velocity in the plane; `y` grows downward.
#[derive(Clone, Copy, Debug, PartialEq, Eq, Structural)]
pub struct Point {
    pub x: i32,
    pub y: i32,
}

/// `v`, pulled back to the nearest end of the coordinate range where it lies outside.
pub open spec fn clamp_coordinate(v: int) -> int {
    if v > MAX_COORDINATE {
        MAX_COORDINATE as int
    } else if v < MIN_COORDINATE {
        MIN_COORDINATE as int
    } else {
        v
    }
}

fn clamped(v: i32) -> (r: i32)
    ensures
        r == clamp_coordinate(v as int),
{
    if v > MAX_COORDINATE {
        MAX_COORDINATE
    } else if v < MIN_COORDINATE {
        MIN_COORDINATE
    } else {
        v
    }
}

impl Point {
    /// The point at `(x, y)`, each coordinate clamped into the coordinate range.
    pub fn new(x: i32, y: i32) -> (p: Point)
        ensures
            p.x == clamp_coordinate(x as int),
            p.y == clamp_coordinate(y as int),
    {
        Point { x: clamped(x), y: clamped(y) }
    }
}

} // verus!

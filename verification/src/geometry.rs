use vstd::prelude::*;

verus! {

/// A sampled pointer position in surface-local pixel coordinates.
///
/// Coordinates are whole pixels; a point is immutable once recorded.
#[derive(Clone, Copy, PartialEq, Eq, Structural, Debug)]
pub struct Point {
    pub x: i64,
    pub y: i64,
}

impl Point {
    pub fn new(x: i64, y: i64) -> (p: Point)
        ensures
            p.x == x,
            p.y == y,
    {
        Point { x, y }
    }
}

} // verus!

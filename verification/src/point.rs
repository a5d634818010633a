//! Data points in micro-unit coordinates.

use vstd::prelude::*;

verus! {

/// Data point.
///
/// Coordinates are exact decimal fixed-point values in millionths of a
/// unit, so `1_500_000` stands for one and a half.
#[derive(Clone, Copy, Debug, PartialEq, Eq, Structural)]
pub struct Point {
    /// `X` value in micro-units
    pub x: i64,
    /// `Y` value in micro-units
    pub y: i64,
}

impl Point {
    /// Create a point from micro-unit coordinates
    pub fn new(x: i64, y: i64) -> (r: Self)
        ensures
            r == (Point { x, y }),
    {
        Point { x, y }
    }
}

} // verus!

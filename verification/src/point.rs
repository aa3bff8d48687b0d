//! Absolute positions in the plane and distance queries between them.
//!
//! Coordinates are exact fixed-point values: `i64` counts of raw units, with
//! [`crate::vector::UNIT`] raw units to one unit of length. A coordinate must
//! lie within [`MAX_COORD`] raw units of the origin, so that every squared
//! distance fits the machine's integers.

use vstd::prelude::*;

use crate::num::{lemma_sqrt_floor_bounds, sqrt_floor};
use crate::vector::Vector;

verus! {

/// Largest coordinate magnitude, in raw units, that a position may hold.
pub const MAX_COORD: i64 = 1_000_000_000;

/// A position in the plane, in raw fixed-point coordinates.
#[derive(Clone, Copy, PartialEq, Debug)]
pub struct Point {
    pub x: i64,
    pub y: i64,
}

/// The squared distance between `a` and `b`, as a mathematical integer.
pub open spec fn dist2(a: Point, b: Point) -> int {
    (a.x - b.x) * (a.x - b.x) + (a.y - b.y) * (a.y - b.y)
}

impl Point {
    /// Both coordinates lie within the kernel's coordinate space.
    pub open spec fn wf(self) -> bool {
        &&& -MAX_COORD <= self.x <= MAX_COORD
        &&& -MAX_COORD <= self.y <= MAX_COORD
    }

    pub fn new(x: i64, y: i64) -> (p: Point)
        ensures
            p == (Point { x, y }),
    {
        Point { x, y }
    }

    pub fn origin() -> (p: Point)
        ensures
            p == (Point { x: 0i64, y: 0i64 }),
    {
        Point::new(0, 0)
    }

    /// Exact equality with the origin: both coordinates are zero.
    pub fn is_origin(&self) -> (r: bool)
        ensures
            r == (*self == (Point { x: 0i64, y: 0i64 })),
    {
        self.x == 0 && self.y == 0
    }

    /// The Euclidean distance from `self` to `other`, rounded down to a raw
    /// unit: the floor square root of the squared distance. A point's
    /// distance to itself is zero.
    pub fn distance_to(&self, other: &Point) -> (r: i64)
        requires
            self.wf(),
            other.wf(),
        ensures
            r == sqrt_floor(dist2(*self, *other)),
            r >= 0,
            *self == *other ==> r == 0,
    {
        let difference = Vector::difference(self, other);
        let r = difference.magnitude();
        proof {
            if *self == *other {
                assert((self.x - other.x) * (self.x - other.x) + (self.y - other.y) * (self.y
                    - other.y) == 0) by (nonlinear_arith)
                    requires
                        self.x == other.x,
                        self.y == other.y,
                ;
            }
        }
        r
    }
}

/// Distance is symmetric: the squared distance, and so its floor square root,
/// does not depend on the order of the two points.
pub proof fn lemma_distance_symmetric(a: Point, b: Point)
    ensures
        dist2(a, b) == dist2(b, a),
        sqrt_floor(dist2(a, b)) == sqrt_floor(dist2(b, a)),
{
    assert(dist2(a, b) == dist2(b, a)) by (nonlinear_arith);
}

/// A point is at distance zero from itself.
pub proof fn lemma_distance_to_self(p: Point)
    ensures
        sqrt_floor(dist2(p, p)) == 0,
{
    assert(dist2(p, p) == 0);
    lemma_sqrt_floor_bounds(0);
}

} // verus!

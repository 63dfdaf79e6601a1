//! Three-component fixed-point vectors.
//!
//! World positions and ray directions are triples of fixed-point scalars.
//! The geometry keeps every coordinate within `COORD_BOUND`, so the dot
//! products the hit test needs fit in `i64` and their products fit in `i128`.

use vstd::prelude::*;

verus! {

/// Largest raw coordinate magnitude the geometry accepts (one hundred units).
pub const COORD_BOUND: i64 = 100_000_000;

/// A point or direction in world space, in fixed-point coordinates.
#[derive(Clone, Copy, PartialEq, Eq, Structural, Debug)]
pub struct Vec3Fx {
    pub x: i64,
    pub y: i64,
    pub z: i64,
}

impl Vec3Fx {
    /// Every coordinate within the geometric range.
    pub open spec fn wf(self) -> bool {
        &&& -COORD_BOUND <= self.x <= COORD_BOUND
        &&& -COORD_BOUND <= self.y <= COORD_BOUND
        &&& -COORD_BOUND <= self.z <= COORD_BOUND
    }

    /// The mathematical dot product of two vectors, over unbounded integers.
    pub open spec fn dot_spec(self, other: Vec3Fx) -> int {
        self.x * other.x + self.y * other.y + self.z * other.z
    }

    /// The squared length, over unbounded integers.
    pub open spec fn norm2_spec(self) -> int {
        self.dot_spec(self)
    }

    /// The all-zero vector.
    pub open spec fn is_zero(self) -> bool {
        self.x == 0 && self.y == 0 && self.z == 0
    }

    /// Builds a vector from its three coordinates.
    pub fn new(x: i64, y: i64, z: i64) -> (v: Vec3Fx)
        ensures
            v == (Vec3Fx { x, y, z }),
    {
        Vec3Fx { x, y, z }
    }
}

/// The dot product of two vectors whose coordinates stay within four times
/// the geometric range (enough for a difference of two in-range points).
pub fn dot3(a: &Vec3Fx, b: &Vec3Fx) -> (r: i64)
    requires
        -4 * COORD_BOUND <= a.x <= 4 * COORD_BOUND,
        -4 * COORD_BOUND <= a.y <= 4 * COORD_BOUND,
        -4 * COORD_BOUND <= a.z <= 4 * COORD_BOUND,
        -4 * COORD_BOUND <= b.x <= 4 * COORD_BOUND,
        -4 * COORD_BOUND <= b.y <= 4 * COORD_BOUND,
        -4 * COORD_BOUND <= b.z <= 4 * COORD_BOUND,
    ensures
        r == a.dot_spec(*b),
        -480_000_000_000_000_000 <= r <= 480_000_000_000_000_000,
{
    proof {
        crate::fx::lemma_product_bound(a.x as int, b.x as int, 400_000_000, 400_000_000);
        crate::fx::lemma_product_bound(a.y as int, b.y as int, 400_000_000, 400_000_000);
        crate::fx::lemma_product_bound(a.z as int, b.z as int, 400_000_000, 400_000_000);
    }
    a.x * b.x + a.y * b.y + a.z * b.z
}

} // verus!

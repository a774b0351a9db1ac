//! Fixed-point scalars and 3D points.
//!
//! A length of one world unit is `SCALE` fixed-point steps; an angle of one
//! radian is `SCALE` angle steps, so a full turn is `TWO_PI_FP` and the
//! constants below are rounded from the usual values of pi.

use vstd::prelude::*;

verus! {

/// Fixed-point steps per world unit (and per radian).
pub const SCALE: i64 = 1000;

/// Pi in angle steps, rounded to the nearest even step.
pub const PI_FP: i64 = 3142;

/// A full turn in angle steps; twice `PI_FP`.
pub const TWO_PI_FP: i64 = 6284;

/// A quarter turn in angle steps; half of `PI_FP`.
pub const HALF_PI_FP: i64 = 1571;

/// Largest coordinate magnitude the model admits: one thousand world units.
pub const COORD_LIMIT: i64 = 1000000;

/// Largest angular speed magnitude the model admits, in angle steps per tick.
pub const SPEED_LIMIT: i64 = 1000000;

/// The square of an integer.
pub open spec fn sq(a: int) -> int {
    a * a
}

/// A point (or vector) in 3D space, in fixed-point world coordinates.
#[derive(Clone, Copy, PartialEq, Eq, Structural, Debug)]
pub struct Vec3 {
    pub x: i64,
    pub y: i64,
    pub z: i64,
}

impl Vec3 {
    /// All coordinates within the admitted range.
    pub open spec fn wf(self) -> bool {
        &&& -COORD_LIMIT <= self.x <= COORD_LIMIT
        &&& -COORD_LIMIT <= self.y <= COORD_LIMIT
        &&& -COORD_LIMIT <= self.z <= COORD_LIMIT
    }

    pub fn new(x: i64, y: i64, z: i64) -> (r: Vec3)
        ensures
            r.x == x,
            r.y == y,
            r.z == z,
    {
        Vec3 { x, y, z }
    }

    /// The origin of the coordinate system.
    pub fn origin() -> (r: Vec3)
        ensures
            r == (Vec3 { x: 0, y: 0, z: 0 }),
            r.wf(),
    {
        Vec3 { x: 0, y: 0, z: 0 }
    }
}

/// Squared Euclidean distance between two points.
pub open spec fn dist2(a: Vec3, b: Vec3) -> int {
    sq(a.x - b.x) + sq(a.y - b.y) + sq(a.z - b.z)
}

/// The square of a fixed-point scalar of bounded magnitude.
pub fn sq_fp(a: i64) -> (r: i64)
    requires
        -3 * COORD_LIMIT <= a <= 3 * COORD_LIMIT,
    ensures
        r == sq(a as int),
        0 <= r <= 9000000000000,
{
    proof {
        assert(a * a == sq(a as int));
        assert(0 <= a * a <= 9000000000000) by (nonlinear_arith)
            requires
                -3000000 <= a <= 3000000,
        ;
    }
    a * a
}

/// Squared Euclidean distance between two bounded points.
pub fn dist2_fp(a: Vec3, b: Vec3) -> (r: i64)
    requires
        a.wf(),
        b.wf(),
    ensures
        r == dist2(a, b),
        0 <= r,
{
    let dx = sq_fp(a.x - b.x);
    let dy = sq_fp(a.y - b.y);
    let dz = sq_fp(a.z - b.z);
    dx + dy + dz
}

} // verus!

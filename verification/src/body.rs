//! A celestial body on a circular orbit around the origin.
//!
//! The body owns its orbital parameters and its current angular position;
//! `advance` moves the angle by the angular speed once per tick, wrapping it
//! into `[0, TWO_PI_FP)`, and `position` places the body on the horizontal
//! plane at its orbital distance from the origin.

use vstd::prelude::*;
use vstd::arithmetic::div_mod::{
    lemma_add_mod_noop_right, lemma_div_by_multiple, lemma_div_is_ordered,
    lemma_div_pos_is_pos, lemma_fundamental_div_mod, lemma_mod_division_less_than_divisor,
    lemma_mod_multiples_vanish, lemma_small_mod,
};
use crate::math::{COORD_LIMIT, SCALE, SPEED_LIMIT, TWO_PI_FP, Vec3};
use crate::trig::{cos_fp, fp_cos, fp_sin, sin_fp};

verus! {

/// A body on a fixed circular orbit; `angle` is its only mutable state.
#[derive(Clone, Copy, PartialEq, Eq, Structural, Debug)]
pub struct OrbitingBody {
    /// Collision extent around the body's center; positive, immutable.
    pub radius: i64,
    /// Fixed distance of the orbit from the origin; immutable.
    pub orbital_distance: i64,
    /// Angle steps added per tick; signed, the sign fixes the direction.
    pub angular_speed: i64,
    /// Current angular position, wrapped into `[0, TWO_PI_FP)`.
    pub angle: i64,
}

/// A body after one tick: the angle moved by the speed and wrapped.
pub open spec fn spec_advance(b: OrbitingBody) -> OrbitingBody {
    OrbitingBody {
        angle: ((b.angle + b.angular_speed) % (TWO_PI_FP as int)) as i64,
        ..b
    }
}

/// A body after `n` ticks.
pub open spec fn advanced(b: OrbitingBody, n: nat) -> OrbitingBody
    decreases n,
{
    if n == 0 {
        b
    } else {
        spec_advance(advanced(b, (n - 1) as nat))
    }
}

/// A nonnegative product scaled down by `SCALE`, rounded toward zero.
pub open spec fn scale_by(d: int, c: int) -> int {
    if c >= 0 {
        (d * c) / (SCALE as int)
    } else {
        -((d * (-c)) / (SCALE as int))
    }
}

/// Where a body stands: on the horizontal plane, at its orbital distance
/// from the origin, in the direction of its current angle.
pub open spec fn spec_position(b: OrbitingBody) -> Vec3 {
    Vec3 {
        x: scale_by(b.orbital_distance as int, fp_cos(b.angle as int)) as i64,
        y: 0,
        z: scale_by(b.orbital_distance as int, fp_sin(b.angle as int)) as i64,
    }
}

/// Multiply a nonnegative distance by a bounded fixed-point factor and
/// scale the product back down; the result stays within the distance.
fn mul_scale(d: i64, c: i64) -> (r: i64)
    requires
        0 <= d <= COORD_LIMIT,
        -SCALE <= c <= SCALE,
    ensures
        r == scale_by(d as int, c as int),
        -d <= r <= d,
{
    if c >= 0 {
        proof {
            assert(0 <= d * c && d * c <= d * 1000 && d * c <= 1000000 * 1000)
                by (nonlinear_arith)
                requires
                    0 <= d <= 1000000,
                    0 <= c <= 1000,
            ;
        }
        let p = d * c;
        proof {
            lemma_div_pos_is_pos(p as int, SCALE as int);
            lemma_div_is_ordered(p as int, d * (SCALE as int), SCALE as int);
            lemma_div_by_multiple(d as int, SCALE as int);
        }
        p / SCALE
    } else {
        proof {
            assert(0 <= d * (-c) && d * (-c) <= d * 1000 && d * (-c) <= 1000000 * 1000)
                by (nonlinear_arith)
                requires
                    0 <= d <= 1000000,
                    0 < -c <= 1000,
            ;
        }
        let p = d * (-c);
        proof {
            lemma_div_pos_is_pos(p as int, SCALE as int);
            lemma_div_is_ordered(p as int, d * (SCALE as int), SCALE as int);
            lemma_div_by_multiple(d as int, SCALE as int);
        }
        -(p / SCALE)
    }
}

impl OrbitingBody {
    /// Orbital parameters in range and the angle wrapped.
    pub open spec fn wf(self) -> bool {
        &&& 0 < self.radius <= COORD_LIMIT
        &&& 0 <= self.orbital_distance <= COORD_LIMIT
        &&& -SPEED_LIMIT <= self.angular_speed <= SPEED_LIMIT
        &&& 0 <= self.angle < TWO_PI_FP
    }

    /// A new body at angle zero with the given fixed parameters.
    pub fn new(radius: i64, orbital_distance: i64, angular_speed: i64) -> (r: OrbitingBody)
        requires
            0 < radius <= COORD_LIMIT,
            0 <= orbital_distance <= COORD_LIMIT,
            -SPEED_LIMIT <= angular_speed <= SPEED_LIMIT,
        ensures
            r == (OrbitingBody { radius, orbital_distance, angular_speed, angle: 0 }),
            r.wf(),
    {
        OrbitingBody { radius, orbital_distance, angular_speed, angle: 0 }
    }

    /// One tick of orbital motion: add the angular speed and wrap the angle
    /// around the full turn, never clamping, so the motion is perpetual.
    pub fn advance(&mut self)
        requires
            old(self).wf(),
        ensures
            *final(self) == spec_advance(*old(self)),
            final(self).wf(),
    {
        let sum = self.angle + self.angular_speed;
        let shifted = sum + TWO_PI_FP * 160;
        let wrapped = shifted % TWO_PI_FP;
        proof {
            lemma_mod_division_less_than_divisor(shifted as int, TWO_PI_FP as int);
            lemma_mod_multiples_vanish(160, sum as int, TWO_PI_FP as int);
        }
        self.angle = wrapped;
    }

    /// The body's current location; a pure function of the orbital distance
    /// and the current angle, with no other state read.
    pub fn position(&self) -> (r: Vec3)
        requires
            self.wf(),
        ensures
            r == spec_position(*self),
            r.wf(),
    {
        let c = cos_fp(self.angle);
        let s = sin_fp(self.angle);
        Vec3 {
            x: mul_scale(self.orbital_distance, c),
            y: 0,
            z: mul_scale(self.orbital_distance, s),
        }
    }
}

/// What the collision check reads of a body: its current location and its
/// collision extent.
#[derive(Clone, Copy, PartialEq, Eq, Structural, Debug)]
pub struct BodyView {
    pub position: Vec3,
    pub radius: i64,
}

impl BodyView {
    /// Location in range and extent positive.
    pub open spec fn wf(self) -> bool {
        &&& self.position.wf()
        &&& 0 < self.radius <= COORD_LIMIT
    }
}

/// The view a body presents to the collision check.
pub open spec fn spec_snapshot(b: OrbitingBody) -> BodyView {
    BodyView { position: spec_position(b), radius: b.radius }
}

impl OrbitingBody {
    /// The body's current location and collision extent, read off for the
    /// navigation layer.
    pub fn snapshot(&self) -> (r: BodyView)
        requires
            self.wf(),
        ensures
            r == spec_snapshot(*self),
            r.wf(),
    {
        BodyView { position: self.position(), radius: self.radius }
    }
}

/// The body's location depends on its state alone: computing it twice
/// without an intervening `advance` gives identical coordinates.
pub proof fn lemma_position_deterministic(b: OrbitingBody, p1: Vec3, p2: Vec3)
    requires
        p1 == spec_position(b),
        p2 == spec_position(b),
    ensures
        p1 == p2,
{
}

/// After any number of ticks the angle is still wrapped, the fixed orbital
/// parameters are untouched, and the angle equals the accumulated raw angle
/// reduced by whole turns.
pub proof fn lemma_advanced_angle(b: OrbitingBody, n: nat)
    requires
        b.wf(),
    ensures
        advanced(b, n).wf(),
        advanced(b, n).radius == b.radius,
        advanced(b, n).orbital_distance == b.orbital_distance,
        advanced(b, n).angular_speed == b.angular_speed,
        advanced(b, n).angle == (b.angle + n * b.angular_speed) % (TWO_PI_FP as int),
    decreases n,
{
    let m = TWO_PI_FP as int;
    let s = b.angular_speed as int;
    if n == 0 {
        lemma_small_mod(b.angle as nat, TWO_PI_FP as nat);
    } else {
        lemma_advanced_angle(b, (n - 1) as nat);
        let prev_raw = b.angle + (n - 1) * s;
        lemma_mod_division_less_than_divisor(prev_raw, m);
        lemma_add_mod_noop_right(s, prev_raw, m);
        assert(s + (b.angle + (n - 1) * s) == b.angle + n * s) by (nonlinear_arith);
        lemma_mod_division_less_than_divisor(b.angle + n * s, m);
    }
}

/// Calling `advance` `ceil(TWO_PI_FP / speed)` times accumulates at least one
/// full turn of raw angle, so the wrap has fired at least once, while the
/// stored angle never leaves `[0, TWO_PI_FP)`.
pub proof fn lemma_angle_wraps(b: OrbitingBody, n: nat)
    requires
        b.wf(),
        0 < b.angular_speed,
        n == (TWO_PI_FP + b.angular_speed - 1) / (b.angular_speed as int),
    ensures
        b.angle + n * b.angular_speed >= TWO_PI_FP,
        advanced(b, n).angle == (b.angle + n * b.angular_speed) % (TWO_PI_FP as int),
        forall|k: nat| 0 <= #[trigger] advanced(b, k).angle < TWO_PI_FP,
{
    let s = b.angular_speed as int;
    let x = TWO_PI_FP + s - 1;
    lemma_fundamental_div_mod(x, s);
    lemma_mod_division_less_than_divisor(x, s);
    assert(n * s == s * (x / s)) by (nonlinear_arith)
        requires
            n == x / s,
    ;
    lemma_advanced_angle(b, n);
    assert forall|k: nat| 0 <= #[trigger] advanced(b, k).angle < TWO_PI_FP by {
        lemma_advanced_angle(b, k);
    }
}

} // verus!

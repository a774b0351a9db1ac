//! Fixed-point sine and cosine on the wrapped angle range.
//!
//! The sine on `[0, PI_FP]` is Bhaskara I's rational approximation, evaluated
//! in integers and scaled by `SCALE`; the second half turn is its mirror
//! image, and the cosine is the sine shifted by a quarter turn. The results
//! always lie in `[-SCALE, SCALE]`, which keeps orbital positions inside the
//! coordinate range.

use vstd::prelude::*;
use vstd::arithmetic::div_mod::{
    lemma_div_by_multiple, lemma_div_is_ordered, lemma_div_pos_is_pos,
    lemma_fundamental_div_mod_converse_mod,
};
use crate::math::{HALF_PI_FP, PI_FP, SCALE, TWO_PI_FP};

verus! {

/// Bhaskara I's sine approximation on `[0, PI_FP]`, scaled by `SCALE`.
pub open spec fn half_sine(x: int) -> int {
    let t = x * (PI_FP - x);
    (16 * t * SCALE) / (5 * PI_FP * PI_FP - 4 * t)
}

/// Sine over one full turn: the half-turn curve, mirrored on the second half.
pub open spec fn fp_sin(a: int) -> int {
    if a < PI_FP {
        half_sine(a)
    } else {
        -half_sine(a - PI_FP)
    }
}

/// Cosine over one full turn: the sine advanced by a quarter turn.
pub open spec fn fp_cos(a: int) -> int {
    fp_sin((a + HALF_PI_FP) % (TWO_PI_FP as int))
}

/// Sine on the first half turn; result in `[0, SCALE]`.
fn half_sine_fp(x: i64) -> (r: i64)
    requires
        0 <= x <= PI_FP,
    ensures
        r == half_sine(x as int),
        0 <= r <= SCALE,
{
    proof {
        assert(0 <= x * (3142 - x) && 4 * (x * (3142 - x)) <= 3142 * 3142) by (nonlinear_arith)
            requires
                0 <= x <= 3142,
        ;
    }
    let t = x * (PI_FP - x);
    let num = 16 * t * SCALE;
    let den = 5 * PI_FP * PI_FP - 4 * t;
    proof {
        lemma_div_pos_is_pos(num as int, den as int);
        lemma_div_is_ordered(num as int, SCALE * den, den as int);
        lemma_div_by_multiple(SCALE as int, den as int);
    }
    num / den
}

/// Sine of a wrapped angle; result in `[-SCALE, SCALE]`.
pub fn sin_fp(a: i64) -> (r: i64)
    requires
        0 <= a < TWO_PI_FP,
    ensures
        r == fp_sin(a as int),
        -SCALE <= r <= SCALE,
{
    if a < PI_FP {
        half_sine_fp(a)
    } else {
        -half_sine_fp(a - PI_FP)
    }
}

/// Cosine of a wrapped angle; result in `[-SCALE, SCALE]`.
pub fn cos_fp(a: i64) -> (r: i64)
    requires
        0 <= a < TWO_PI_FP,
    ensures
        r == fp_cos(a as int),
        -SCALE <= r <= SCALE,
{
    let shifted = a + HALF_PI_FP;
    let wrapped = if shifted >= TWO_PI_FP {
        shifted - TWO_PI_FP
    } else {
        shifted
    };
    proof {
        if shifted >= TWO_PI_FP {
            lemma_fundamental_div_mod_converse_mod(
                shifted as int,
                TWO_PI_FP as int,
                1,
                shifted - TWO_PI_FP,
            );
        } else {
            lemma_fundamental_div_mod_converse_mod(
                shifted as int,
                TWO_PI_FP as int,
                0,
                shifted as int,
            );
        }
    }
    sin_fp(wrapped)
}

} // verus!

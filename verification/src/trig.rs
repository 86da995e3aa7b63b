//! Fixed-point sine and cosine.
//!
//! The motion model and the sensor simulators need `sin` and `cos` of the
//! vehicle heading.  Both are computed here over fixed-point integers: the
//! argument is folded into `[-pi/2, pi/2]` with the usual symmetries and a
//! truncated Taylor polynomial (four Horner levels) is evaluated exactly in
//! integer arithmetic.  Each function's contract states the computed value
//! precisely via its spec mirror, together with the magnitude bound
//! `TRIG_LIMIT` that downstream overflow reasoning relies on.

use crate::fixed::{
    abs_s, lemma_abs_mul_bound, lemma_tdiv_magnitude, lemma_trem_range, tdiv_i64, tdiv_s, trem_s,
    SCALE, TRIG_LIMIT, YAW_LIMIT,
};
use vstd::prelude::*;

verus! {

/// pi in fixed-point ticks, truncated.
pub const PI_FP: i64 = 3_141_592;

/// 2 * pi in fixed-point ticks, truncated.
pub const TWO_PI_FP: i64 = 6_283_185;

/// pi / 2 in fixed-point ticks, truncated.
pub const HALF_PI_FP: i64 = 1_570_796;

/// Fold an angle into `[-(PI_FP + 1), PI_FP]` by subtracting whole turns.
pub open spec fn fold_angle_s(theta: int) -> int {
    let r = trem_s(theta, TWO_PI_FP as int);
    if r > PI_FP {
        r - TWO_PI_FP
    } else if r < -(PI_FP as int) {
        r + TWO_PI_FP
    } else {
        r
    }
}

/// Taylor polynomial for sine on `[-pi/2, pi/2]`, in ticks:
/// `x * (1 - y/6 * (1 - y/20 * (1 - y/42 * (1 - y/72))))` with `y = x*x`.
#[verifier::opaque]
pub open spec fn sin_core_s(x: int) -> int {
    let y = tdiv_s(x * x, SCALE as int);
    let t4 = SCALE - tdiv_s(y, 72);
    let t3 = SCALE - tdiv_s(y * t4, 42 * (SCALE as int));
    let t2 = SCALE - tdiv_s(y * t3, 20 * (SCALE as int));
    let t1 = SCALE - tdiv_s(y * t2, 6 * (SCALE as int));
    tdiv_s(x * t1, SCALE as int)
}

/// Taylor polynomial for cosine on `[-pi/2, pi/2]`, in ticks:
/// `1 - y/2 * (1 - y/12 * (1 - y/30 * (1 - y/56)))` with `y = x*x`.
#[verifier::opaque]
pub open spec fn cos_core_s(x: int) -> int {
    let y = tdiv_s(x * x, SCALE as int);
    let u4 = SCALE - tdiv_s(y, 56);
    let u3 = SCALE - tdiv_s(y * u4, 30 * (SCALE as int));
    let u2 = SCALE - tdiv_s(y * u3, 12 * (SCALE as int));
    SCALE - tdiv_s(y * u2, 2 * (SCALE as int))
}

/// Sine of an angle in ticks, after folding into the core interval.
pub open spec fn sin_fp_s(theta: int) -> int {
    let r = fold_angle_s(theta);
    if r > HALF_PI_FP {
        sin_core_s(PI_FP - r)
    } else if r < -(HALF_PI_FP as int) {
        sin_core_s(-(PI_FP as int) - r)
    } else {
        sin_core_s(r)
    }
}

/// Cosine of an angle in ticks, after folding into the core interval.
pub open spec fn cos_fp_s(theta: int) -> int {
    let r = fold_angle_s(theta);
    let a = abs_s(r);
    if a <= HALF_PI_FP {
        cos_core_s(a)
    } else {
        -cos_core_s(PI_FP - a)
    }
}

/// Largest magnitude a core-interval argument can have after folding.
pub const CORE_ARG_LIMIT: i64 = 1_570_797;

/// Largest magnitude of the squared, rescaled core argument.
pub const CORE_Y_LIMIT: i64 = 2_467_403;

proof fn lemma_core_y_bound(x: int)
    requires
        -(CORE_ARG_LIMIT as int) <= x <= CORE_ARG_LIMIT as int,
    ensures
        0 <= tdiv_s(x * x, SCALE as int) <= CORE_Y_LIMIT as int,
        x * x <= 2_467_403_215_209,
{
    lemma_abs_mul_bound(x, x, CORE_ARG_LIMIT as int, CORE_ARG_LIMIT as int);
    assert(x * x >= 0) by (nonlinear_arith);
    lemma_tdiv_magnitude(x * x, SCALE as int, 2_467_403_215_209, SCALE as int);
}

/// Evaluate the sine polynomial on the core interval.
fn sin_core(x: i64) -> (r: i64)
    requires
        -CORE_ARG_LIMIT <= x <= CORE_ARG_LIMIT,
    ensures
        r == sin_core_s(x as int),
        -CORE_ARG_LIMIT <= r <= CORE_ARG_LIMIT,
{
    proof {
        reveal(sin_core_s);
        lemma_core_y_bound(x as int);
    }
    let y: i64 = tdiv_i64(x * x, SCALE);
    let t4: i64 = SCALE - tdiv_i64(y, 72);
    proof {
        lemma_abs_mul_bound(y as int, t4 as int, CORE_Y_LIMIT as int, SCALE as int);
        lemma_tdiv_magnitude(
            y as int * t4 as int,
            42 * (SCALE as int),
            CORE_Y_LIMIT as int * SCALE as int,
            42 * (SCALE as int),
        );
    }
    let t3: i64 = SCALE - tdiv_i64(y * t4, 42 * SCALE);
    proof {
        lemma_abs_mul_bound(y as int, t3 as int, CORE_Y_LIMIT as int, SCALE as int);
        lemma_tdiv_magnitude(
            y as int * t3 as int,
            20 * (SCALE as int),
            CORE_Y_LIMIT as int * SCALE as int,
            20 * (SCALE as int),
        );
    }
    let t2: i64 = SCALE - tdiv_i64(y * t3, 20 * SCALE);
    proof {
        lemma_abs_mul_bound(y as int, t2 as int, CORE_Y_LIMIT as int, SCALE as int);
        lemma_tdiv_magnitude(
            y as int * t2 as int,
            6 * (SCALE as int),
            CORE_Y_LIMIT as int * SCALE as int,
            6 * (SCALE as int),
        );
    }
    let t1: i64 = SCALE - tdiv_i64(y * t2, 6 * SCALE);
    proof {
        lemma_abs_mul_bound(x as int, t1 as int, CORE_ARG_LIMIT as int, SCALE as int);
        lemma_tdiv_magnitude(
            x as int * t1 as int,
            SCALE as int,
            CORE_ARG_LIMIT as int * SCALE as int,
            SCALE as int,
        );
    }
    tdiv_i64(x * t1, SCALE)
}

/// Evaluate the cosine polynomial on the core interval.
fn cos_core(x: i64) -> (r: i64)
    requires
        -CORE_ARG_LIMIT <= x <= CORE_ARG_LIMIT,
    ensures
        r == cos_core_s(x as int),
        -SCALE <= r <= SCALE,
{
    proof {
        reveal(cos_core_s);
        lemma_core_y_bound(x as int);
    }
    let y: i64 = tdiv_i64(x * x, SCALE);
    let u4: i64 = SCALE - tdiv_i64(y, 56);
    proof {
        lemma_abs_mul_bound(y as int, u4 as int, CORE_Y_LIMIT as int, SCALE as int);
        lemma_tdiv_magnitude(
            y as int * u4 as int,
            30 * (SCALE as int),
            CORE_Y_LIMIT as int * SCALE as int,
            30 * (SCALE as int),
        );
    }
    let u3: i64 = SCALE - tdiv_i64(y * u4, 30 * SCALE);
    proof {
        lemma_abs_mul_bound(y as int, u3 as int, CORE_Y_LIMIT as int, SCALE as int);
        lemma_tdiv_magnitude(
            y as int * u3 as int,
            12 * (SCALE as int),
            CORE_Y_LIMIT as int * SCALE as int,
            12 * (SCALE as int),
        );
    }
    let u2: i64 = SCALE - tdiv_i64(y * u3, 12 * SCALE);
    proof {
        lemma_abs_mul_bound(y as int, u2 as int, CORE_Y_LIMIT as int, SCALE as int);
        lemma_tdiv_magnitude(
            y as int * u2 as int,
            2 * (SCALE as int),
            CORE_Y_LIMIT as int * SCALE as int,
            2 * (SCALE as int),
        );
        assert(0 <= tdiv_s(y as int * u2 as int, 2 * (SCALE as int))) by {
            if y as int * u2 as int >= 0 {
                lemma_tdiv_magnitude(y as int * u2 as int, 2 * (SCALE as int), y as int * u2 as int, 1);
            }
            assert(y as int * u2 as int >= 0) by (nonlinear_arith)
                requires
                    y >= 0,
                    u2 >= 0,
            ;
        }
    }
    SCALE - tdiv_i64(y * u2, 2 * SCALE)
}

/// Fold an arbitrary heading into `[-(PI_FP + 1), PI_FP]`.
fn fold_angle(theta: i64) -> (r: i64)
    requires
        -YAW_LIMIT <= theta <= YAW_LIMIT,
    ensures
        r == fold_angle_s(theta as int),
        -(PI_FP + 1) <= r <= PI_FP,
{
    let q: i64 = tdiv_i64(theta, TWO_PI_FP);
    proof {
        lemma_tdiv_magnitude(theta as int, TWO_PI_FP as int, YAW_LIMIT as int, TWO_PI_FP as int);
        crate::fixed::lemma_tdiv_mul_le(theta as int, TWO_PI_FP as int);
        lemma_trem_range(theta as int, TWO_PI_FP as int);
    }
    let r0: i64 = theta - q * TWO_PI_FP;
    if r0 > PI_FP {
        r0 - TWO_PI_FP
    } else if r0 < -PI_FP {
        r0 + TWO_PI_FP
    } else {
        r0
    }
}

/// Sine of a fixed-point angle.
pub fn sin_fp(theta: i64) -> (r: i64)
    requires
        -YAW_LIMIT <= theta <= YAW_LIMIT,
    ensures
        r == sin_fp_s(theta as int),
        -TRIG_LIMIT <= r <= TRIG_LIMIT,
{
    let r0: i64 = fold_angle(theta);
    if r0 > HALF_PI_FP {
        sin_core(PI_FP - r0)
    } else if r0 < -HALF_PI_FP {
        sin_core(-PI_FP - r0)
    } else {
        sin_core(r0)
    }
}

/// Cosine of a fixed-point angle.
pub fn cos_fp(theta: i64) -> (r: i64)
    requires
        -YAW_LIMIT <= theta <= YAW_LIMIT,
    ensures
        r == cos_fp_s(theta as int),
        -TRIG_LIMIT <= r <= TRIG_LIMIT,
{
    let r0: i64 = fold_angle(theta);
    let a: i64 = if r0 < 0 {
        -r0
    } else {
        r0
    };
    if a <= HALF_PI_FP {
        cos_core(a)
    } else {
        -cos_core(PI_FP - a)
    }
}

} // verus!

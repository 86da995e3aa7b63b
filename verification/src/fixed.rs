//! Fixed-point arithmetic over `i64` values.
//!
//! One physical unit (metre, radian, second, metre per second, ...) is
//! `SCALE` ticks, so a value `v: i64` stands for the real number `v / SCALE`.
//! Division truncates towards zero, exactly as Rust's integer division does;
//! the spec function `tdiv_s` mirrors that behaviour over mathematical
//! integers, so every executable helper here has an exact contract.
//!
//! Results of chained operations are kept representable by saturation:
//! `sat_s` clamps a mathematical result into `[-lim, lim]`.  Every bound in
//! this module exists only so that intermediate products fit in `i128`; none
//! narrows the physically meaningful input range.

use vstd::arithmetic::div_mod::{
    lemma_div_is_ordered, lemma_div_is_ordered_by_denominator, lemma_div_nonincreasing,
    lemma_div_pos_is_pos,
};
use vstd::prelude::*;

verus! {

/// Number of fixed-point ticks per physical unit.
pub const SCALE: i64 = 1_000_000;

/// Largest representable coordinate (x or y), in ticks: one billion metres.
pub const POS_LIMIT: i64 = 1_000_000_000_000_000;

/// Largest representable heading, in ticks.  Yaw accumulates without being
/// wrapped into a canonical range, so the bound is deliberately enormous.
pub const YAW_LIMIT: i64 = 1_000_000_000_000_000;

/// Largest representable speed, in ticks: one million metres per second.
pub const VEL_LIMIT: i64 = 1_000_000_000_000;

/// Largest acceptable commanded acceleration, in ticks.
pub const ACC_LIMIT: i64 = 1_000_000_000_000;

/// Largest representable timestamp, in ticks.
pub const TIME_LIMIT: i64 = 4_000_000_000_000_000_000;

/// Largest acceptable simulation step, in ticks: ten seconds.
pub const DT_MAX: i64 = 10_000_000;

/// Largest acceptable wheelbase, in ticks: one thousand metres.
pub const WHEELBASE_MAX: i64 = 1_000_000_000;

/// Largest acceptable steering-angle clamp, in ticks: four radians.
pub const STEER_LIMIT: i64 = 4_000_000;

/// Largest acceptable vehicle width or length, in ticks.
pub const SIZE_MAX: i64 = 1_000_000_000;

/// Bound on the magnitude of the sine and cosine approximations, in ticks.
pub const TRIG_LIMIT: i64 = 1_600_000;

/// Largest number of sensor history entries a device accepts; keeps every
/// running sum over a history within `i128`.
pub const HISTORY_LIMIT: i64 = 10_000_000_000_000;

/// Truncating (round towards zero) division, as Rust's `/` computes it.
/// Unspecified for `b == 0`.
pub open spec fn tdiv_s(a: int, b: int) -> int {
    if a == 0 {
        0
    } else if a > 0 && b > 0 {
        a / b
    } else if a < 0 && b < 0 {
        (a * -1) / (b * -1)
    } else if a < 0 {
        ((a * -1) / b) * -1
    } else {
        (a / (b * -1)) * -1
    }
}

/// Saturation of a mathematical result into `[-lim, lim]`.
pub open spec fn sat_s(v: int, lim: int) -> int {
    if v > lim {
        lim
    } else if v < -lim {
        -lim
    } else {
        v
    }
}

/// Magnitude of an integer.
pub open spec fn abs_s(a: int) -> int {
    if a < 0 {
        -a
    } else {
        a
    }
}

/// The product of two bounded factors is bounded by the product of the
/// bounds.
pub proof fn lemma_abs_mul_bound(a: int, b: int, la: int, lb: int)
    by (nonlinear_arith)
    requires
        -la <= a <= la,
        -lb <= b <= lb,
    ensures
        -(la * lb) <= a * b <= la * lb,
{
}

/// Truncating division cannot grow the magnitude of the dividend, and more
/// precisely is bounded by `n / d` whenever `|a| <= n` and `|b| >= d`.
pub proof fn lemma_tdiv_magnitude(a: int, b: int, n: int, d: int)
    requires
        b != 0,
        -n <= a <= n,
        d > 0,
        b >= d || -b >= d,
    ensures
        -(n / d) <= tdiv_s(a, b) <= n / d,
        -n <= tdiv_s(a, b) <= n,
{
    let ma = abs_s(a);
    let mb = abs_s(b);
    assert(tdiv_s(a, b) == ma / mb || tdiv_s(a, b) == (ma / mb) * -1);
    lemma_div_pos_is_pos(ma, mb);
    lemma_div_is_ordered(ma, n, mb);
    lemma_div_is_ordered_by_denominator(n, d, mb);
    lemma_div_nonincreasing(n, d);
}

/// Exact truncating division on `i128`, backed by `checked_div`.
pub fn tdiv_i128(a: i128, b: i128) -> (r: i128)
    requires
        b != 0,
        a > i128::MIN,
    ensures
        r == tdiv_s(a as int, b as int),
{
    proof {
        lemma_tdiv_magnitude(a as int, b as int, abs_s(a as int), 1);
    }
    a.checked_div(b).unwrap()
}

/// Exact truncating division on `i64`, backed by `checked_div`.
pub fn tdiv_i64(a: i64, b: i64) -> (r: i64)
    requires
        b != 0,
        a > i64::MIN,
    ensures
        r == tdiv_s(a as int, b as int),
{
    proof {
        lemma_tdiv_magnitude(a as int, b as int, abs_s(a as int), 1);
    }
    a.checked_div(b).unwrap()
}

/// Truncating division is odd in the dividend.
pub proof fn lemma_tdiv_neg(a: int, b: int)
    requires
        b > 0,
    ensures
        tdiv_s(-a, b) == -tdiv_s(a, b),
{
}

/// Multiplying a truncated quotient back by the divisor cannot overshoot the
/// dividend's magnitude.
pub proof fn lemma_tdiv_mul_le(a: int, b: int)
    requires
        b > 0,
    ensures
        0 <= tdiv_s(a, b) * b <= a || a <= tdiv_s(a, b) * b <= 0,
{
    let m = abs_s(a);
    vstd::arithmetic::div_mod::lemma_fundamental_div_mod(m, b);
    vstd::arithmetic::div_mod::lemma_mod_division_less_than_divisor(m, b);
    lemma_div_pos_is_pos(m, b);
    assert(0 <= (m / b) * b <= m) by (nonlinear_arith)
        requires
            b > 0,
            m >= 0,
            m / b >= 0,
            m == b * (m / b) + m % b,
            0 <= m % b,
    ;
    if a < 0 {
        assert(tdiv_s(a, b) * b == -((m / b) * b)) by (nonlinear_arith)
            requires
                a < 0,
                m == -a,
                tdiv_s(a, b) == (m / b) * -1,
        ;
    }
}

/// Truncating remainder: what `a - (a / b) * b` leaves over under truncating
/// division.  It carries the sign of `a`.
pub open spec fn trem_s(a: int, b: int) -> int {
    a - tdiv_s(a, b) * b
}

/// The truncating remainder lies strictly between `-b` and `b`.
pub proof fn lemma_trem_range(a: int, b: int)
    requires
        b > 0,
    ensures
        -b < trem_s(a, b) < b,
        a >= 0 ==> trem_s(a, b) >= 0,
        a < 0 ==> trem_s(a, b) <= 0,
{
    if a >= 0 {
        vstd::arithmetic::div_mod::lemma_fundamental_div_mod(a, b);
        vstd::arithmetic::div_mod::lemma_mod_division_less_than_divisor(a, b);
        assert(trem_s(a, b) == a % b) by (nonlinear_arith)
            requires
                b > 0,
                a >= 0,
                a == b * (a / b) + a % b,
                trem_s(a, b) == a - (a / b) * b,
        ;
    } else {
        let m = -a;
        vstd::arithmetic::div_mod::lemma_fundamental_div_mod(m, b);
        vstd::arithmetic::div_mod::lemma_mod_division_less_than_divisor(m, b);
        assert(trem_s(a, b) == -(m % b)) by (nonlinear_arith)
            requires
                b > 0,
                a < 0,
                m == -a,
                m == b * (m / b) + m % b,
                trem_s(a, b) == a - (((m / b) * -1) * b),
        ;
    }
}

/// Saturate a wide intermediate value into `[-lim, lim]` and narrow it.
pub fn sat_i128(v: i128, lim: i64) -> (r: i64)
    requires
        lim > 0,
    ensures
        r == sat_s(v as int, lim as int),
        -lim <= r <= lim,
{
    let neg: i128 = -(lim as i128);
    if v > lim as i128 {
        lim
    } else if v < neg {
        -lim
    } else {
        v as i64
    }
}

/// Truncating division followed by saturation: the one-step form used by all
/// fixed-point component computations.
pub fn scale_div_sat(num: i128, den: i128, lim: i64) -> (r: i64)
    requires
        den != 0,
        num > i128::MIN,
        lim > 0,
    ensures
        r == sat_s(tdiv_s(num as int, den as int), lim as int),
{
    let q: i128 = tdiv_i128(num, den);
    sat_i128(q, lim)
}

/// The integer square root: the unique `r >= 0` with
/// `r * r <= n < (r + 1) * (r + 1)`.
pub open spec fn isqrt_s(n: int) -> int {
    choose|r: int| 0 <= r && #[trigger] (r * r) <= n && n < (r + 1) * (r + 1)
}

/// `isqrt_s` is pinned down by its defining property: any witness equals it.
pub proof fn lemma_isqrt_unique(n: int, r: int)
    requires
        0 <= r,
        r * r <= n,
        n < (r + 1) * (r + 1),
    ensures
        isqrt_s(n) == r,
{
    assert(0 <= r && r * r <= n && n < (r + 1) * (r + 1));
    let c = isqrt_s(n);
    assert(0 <= c && c * c <= n && n < (c + 1) * (c + 1));
    if c < r {
        assert((c + 1) * (c + 1) <= r * r) by (nonlinear_arith)
            requires
                0 <= c,
                c < r,
        ;
    }
    if r < c {
        assert((r + 1) * (r + 1) <= c * c) by (nonlinear_arith)
            requires
                0 <= r,
                r < c,
        ;
    }
}

/// Executable integer square root by bisection.
pub fn isqrt_u128(n: u128) -> (r: u128)
    ensures
        r * r <= n,
        n < (r + 1) * (r + 1),
        r as int == isqrt_s(n as int),
        r < 0x1_0000_0000_0000_0000,
{
    let mut lo: u128 = 0;
    let mut hi: u128 = 0x1_0000_0000_0000_0000;
    proof {
        assert((hi as int) * (hi as int) > u128::MAX as int) by (nonlinear_arith)
            requires
                hi == 0x1_0000_0000_0000_0000u128,
        ;
    }
    while lo + 1 < hi
        invariant
            0 <= lo < hi <= 0x1_0000_0000_0000_0000,
            (lo as int) * (lo as int) <= n as int,
            (n as int) < (hi as int) * (hi as int),
        decreases hi - lo,
    {
        let mid: u128 = lo + (hi - lo) / 2;
        proof {
            vstd::arithmetic::div_mod::lemma_div_is_strictly_smaller((hi - lo) as int, 2);
            lemma_div_is_ordered(2, (hi - lo) as int, 2);
            assert(2int / 2 == 1) by {
                vstd::arithmetic::div_mod::lemma_div_by_self(2);
            }
            assert(lo < mid < hi);
            assert((mid as int) * (mid as int) <= u128::MAX as int) by (nonlinear_arith)
                requires
                    0 <= mid <= 0xFFFF_FFFF_FFFF_FFFFu128,
            ;
        }
        if mid * mid <= n {
            lo = mid;
        } else {
            hi = mid;
        }
    }
    proof {
        lemma_isqrt_unique(n as int, lo as int);
    }
    lo
}

/// Clamp a value into `[lo, hi]`, the policy applied to steering commands.
pub open spec fn clamp_s(v: int, lo: int, hi: int) -> int {
    if v < lo {
        lo
    } else if v > hi {
        hi
    } else {
        v
    }
}

/// Executable clamp with an exact contract.
pub fn clamp_i64(v: i64, lo: i64, hi: i64) -> (r: i64)
    requires
        lo <= hi,
    ensures
        r == clamp_s(v as int, lo as int, hi as int),
        lo <= r <= hi,
{
    if v < lo {
        lo
    } else if v > hi {
        hi
    } else {
        v
    }
}

} // verus!

//! Fixed-point 4x4 matrices over the state vector (x, y, yaw, velocity).
//!
//! The estimator propagates a 4x4 covariance and multiplies it with the
//! motion Jacobian, so this module supplies exactly the operations that the
//! filter needs: addition, transpose, multiplication, clamping,
//! symmetrisation, determinant and inversion.  A matrix entry in ticks
//! stands for the real number `entry / SCALE`, so a product of two matrices
//! rescales each accumulated dot product by `SCALE`.
//!
//! Every operation has an exact contract over the mathematical view
//! `Mat4V`; multiplication and inversion saturate their entries so that
//! results stay representable, and the saturation is part of the contract.

use crate::fixed::{
    lemma_abs_mul_bound, lemma_tdiv_magnitude, sat_i128, sat_s, scale_div_sat, tdiv_i128,
    tdiv_s, SCALE,
};
use vstd::prelude::*;

verus! {

/// Saturation bound for general matrix arithmetic.
pub const MAT_LIMIT: i64 = 4_000_000_000_000_000;

/// Bound kept on covariance entries between filter steps.
pub const COV_LIMIT: i64 = 120_000_000;

/// Bound demanded of entries of a matrix handed to `invert`.
pub const INV_IN_LIMIT: i64 = 250_000_000;

/// Saturation bound for entries of an inverted matrix.
pub const SINV_LIMIT: i64 = 1_000_000_000_000_000;

/// A 4x4 fixed-point matrix, row major.
#[derive(Clone, Copy, Debug)]
pub struct Mat4 {
    pub m00: i64,
    pub m01: i64,
    pub m02: i64,
    pub m03: i64,
    pub m10: i64,
    pub m11: i64,
    pub m12: i64,
    pub m13: i64,
    pub m20: i64,
    pub m21: i64,
    pub m22: i64,
    pub m23: i64,
    pub m30: i64,
    pub m31: i64,
    pub m32: i64,
    pub m33: i64,
}

/// Mathematical view of a `Mat4`: the same entries as unbounded integers.
pub ghost struct Mat4V {
    pub m00: int,
    pub m01: int,
    pub m02: int,
    pub m03: int,
    pub m10: int,
    pub m11: int,
    pub m12: int,
    pub m13: int,
    pub m20: int,
    pub m21: int,
    pub m22: int,
    pub m23: int,
    pub m30: int,
    pub m31: int,
    pub m32: int,
    pub m33: int,
}

impl View for Mat4 {
    type V = Mat4V;

    open spec fn view(&self) -> Mat4V {
        Mat4V {
            m00: self.m00 as int,
            m01: self.m01 as int,
            m02: self.m02 as int,
            m03: self.m03 as int,
            m10: self.m10 as int,
            m11: self.m11 as int,
            m12: self.m12 as int,
            m13: self.m13 as int,
            m20: self.m20 as int,
            m21: self.m21 as int,
            m22: self.m22 as int,
            m23: self.m23 as int,
            m30: self.m30 as int,
            m31: self.m31 as int,
            m32: self.m32 as int,
            m33: self.m33 as int,
        }
    }
}

/// All entries within `[-lim, lim]`.
pub open spec fn mat_bounded_s(m: Mat4V, lim: int) -> bool {
    &&& -lim <= m.m00 <= lim
    &&& -lim <= m.m01 <= lim
    &&& -lim <= m.m02 <= lim
    &&& -lim <= m.m03 <= lim
    &&& -lim <= m.m10 <= lim
    &&& -lim <= m.m11 <= lim
    &&& -lim <= m.m12 <= lim
    &&& -lim <= m.m13 <= lim
    &&& -lim <= m.m20 <= lim
    &&& -lim <= m.m21 <= lim
    &&& -lim <= m.m22 <= lim
    &&& -lim <= m.m23 <= lim
    &&& -lim <= m.m30 <= lim
    &&& -lim <= m.m31 <= lim
    &&& -lim <= m.m32 <= lim
    &&& -lim <= m.m33 <= lim
}

/// The matrix is equal to its transpose.
pub open spec fn mat_symmetric_s(m: Mat4V) -> bool {
    &&& m.m01 == m.m10
    &&& m.m02 == m.m20
    &&& m.m03 == m.m30
    &&& m.m12 == m.m21
    &&& m.m13 == m.m31
    &&& m.m23 == m.m32
}

/// The fixed-point identity: `SCALE` on the diagonal.
pub open spec fn mat_identity_s() -> Mat4V {
    Mat4V {
        m00: SCALE as int,
        m01: 0,
        m02: 0,
        m03: 0,
        m10: 0,
        m11: SCALE as int,
        m12: 0,
        m13: 0,
        m20: 0,
        m21: 0,
        m22: SCALE as int,
        m23: 0,
        m30: 0,
        m31: 0,
        m32: 0,
        m33: SCALE as int,
    }
}

impl Mat4 {
    /// The fixed-point identity matrix.
    pub fn identity() -> (r: Mat4)
        ensures
            r@ == mat_identity_s(),
    {
        Mat4 {
            m00: SCALE,
            m01: 0,
            m02: 0,
            m03: 0,
            m10: 0,
            m11: SCALE,
            m12: 0,
            m13: 0,
            m20: 0,
            m21: 0,
            m22: SCALE,
            m23: 0,
            m30: 0,
            m31: 0,
            m32: 0,
            m33: SCALE,
        }
    }

    /// The all-zero matrix.
    pub fn zero() -> (r: Mat4)
        ensures
            r@ == (Mat4V {
                m00: 0,
                m01: 0,
                m02: 0,
                m03: 0,
                m10: 0,
                m11: 0,
                m12: 0,
                m13: 0,
                m20: 0,
                m21: 0,
                m22: 0,
                m23: 0,
                m30: 0,
                m31: 0,
                m32: 0,
                m33: 0,
            }),
    {
        Mat4 {
            m00: 0,
            m01: 0,
            m02: 0,
            m03: 0,
            m10: 0,
            m11: 0,
            m12: 0,
            m13: 0,
            m20: 0,
            m21: 0,
            m22: 0,
            m23: 0,
            m30: 0,
            m31: 0,
            m32: 0,
            m33: 0,
        }
    }
}

/// Entry-wise saturated sum.
pub open spec fn mat_add_s(a: Mat4V, b: Mat4V, lim: int) -> Mat4V {
    Mat4V {
        m00: sat_s(a.m00 + b.m00, lim),
        m01: sat_s(a.m01 + b.m01, lim),
        m02: sat_s(a.m02 + b.m02, lim),
        m03: sat_s(a.m03 + b.m03, lim),
        m10: sat_s(a.m10 + b.m10, lim),
        m11: sat_s(a.m11 + b.m11, lim),
        m12: sat_s(a.m12 + b.m12, lim),
        m13: sat_s(a.m13 + b.m13, lim),
        m20: sat_s(a.m20 + b.m20, lim),
        m21: sat_s(a.m21 + b.m21, lim),
        m22: sat_s(a.m22 + b.m22, lim),
        m23: sat_s(a.m23 + b.m23, lim),
        m30: sat_s(a.m30 + b.m30, lim),
        m31: sat_s(a.m31 + b.m31, lim),
        m32: sat_s(a.m32 + b.m32, lim),
        m33: sat_s(a.m33 + b.m33, lim),
    }
}

/// Entry-wise saturated difference.
pub open spec fn mat_sub_s(a: Mat4V, b: Mat4V, lim: int) -> Mat4V {
    Mat4V {
        m00: sat_s(a.m00 - b.m00, lim),
        m01: sat_s(a.m01 - b.m01, lim),
        m02: sat_s(a.m02 - b.m02, lim),
        m03: sat_s(a.m03 - b.m03, lim),
        m10: sat_s(a.m10 - b.m10, lim),
        m11: sat_s(a.m11 - b.m11, lim),
        m12: sat_s(a.m12 - b.m12, lim),
        m13: sat_s(a.m13 - b.m13, lim),
        m20: sat_s(a.m20 - b.m20, lim),
        m21: sat_s(a.m21 - b.m21, lim),
        m22: sat_s(a.m22 - b.m22, lim),
        m23: sat_s(a.m23 - b.m23, lim),
        m30: sat_s(a.m30 - b.m30, lim),
        m31: sat_s(a.m31 - b.m31, lim),
        m32: sat_s(a.m32 - b.m32, lim),
        m33: sat_s(a.m33 - b.m33, lim),
    }
}

/// Transpose.
pub open spec fn mat_transpose_s(a: Mat4V) -> Mat4V {
    Mat4V {
        m00: a.m00,
        m01: a.m10,
        m02: a.m20,
        m03: a.m30,
        m10: a.m01,
        m11: a.m11,
        m12: a.m21,
        m13: a.m31,
        m20: a.m02,
        m21: a.m12,
        m22: a.m22,
        m23: a.m32,
        m30: a.m03,
        m31: a.m13,
        m32: a.m23,
        m33: a.m33,
    }
}

/// Entry-wise clamp into `[-lim, lim]`.
pub open spec fn mat_clamp_s(a: Mat4V, lim: int) -> Mat4V {
    Mat4V {
        m00: sat_s(a.m00, lim),
        m01: sat_s(a.m01, lim),
        m02: sat_s(a.m02, lim),
        m03: sat_s(a.m03, lim),
        m10: sat_s(a.m10, lim),
        m11: sat_s(a.m11, lim),
        m12: sat_s(a.m12, lim),
        m13: sat_s(a.m13, lim),
        m20: sat_s(a.m20, lim),
        m21: sat_s(a.m21, lim),
        m22: sat_s(a.m22, lim),
        m23: sat_s(a.m23, lim),
        m30: sat_s(a.m30, lim),
        m31: sat_s(a.m31, lim),
        m32: sat_s(a.m32, lim),
        m33: sat_s(a.m33, lim),
    }
}

/// One saturated, rescaled dot product of a row and a column.
pub open spec fn dot4_s(
    a0: int,
    a1: int,
    a2: int,
    a3: int,
    b0: int,
    b1: int,
    b2: int,
    b3: int,
    lim: int,
) -> int {
    sat_s(tdiv_s(a0 * b0 + a1 * b1 + a2 * b2 + a3 * b3, SCALE as int), lim)
}

/// Matrix product with entries rescaled by `SCALE` and saturated at `lim`.
pub open spec fn mat_mul_s(a: Mat4V, b: Mat4V, lim: int) -> Mat4V {
    Mat4V {
        m00: dot4_s(a.m00, a.m01, a.m02, a.m03, b.m00, b.m10, b.m20, b.m30, lim),
        m01: dot4_s(a.m00, a.m01, a.m02, a.m03, b.m01, b.m11, b.m21, b.m31, lim),
        m02: dot4_s(a.m00, a.m01, a.m02, a.m03, b.m02, b.m12, b.m22, b.m32, lim),
        m03: dot4_s(a.m00, a.m01, a.m02, a.m03, b.m03, b.m13, b.m23, b.m33, lim),
        m10: dot4_s(a.m10, a.m11, a.m12, a.m13, b.m00, b.m10, b.m20, b.m30, lim),
        m11: dot4_s(a.m10, a.m11, a.m12, a.m13, b.m01, b.m11, b.m21, b.m31, lim),
        m12: dot4_s(a.m10, a.m11, a.m12, a.m13, b.m02, b.m12, b.m22, b.m32, lim),
        m13: dot4_s(a.m10, a.m11, a.m12, a.m13, b.m03, b.m13, b.m23, b.m33, lim),
        m20: dot4_s(a.m20, a.m21, a.m22, a.m23, b.m00, b.m10, b.m20, b.m30, lim),
        m21: dot4_s(a.m20, a.m21, a.m22, a.m23, b.m01, b.m11, b.m21, b.m31, lim),
        m22: dot4_s(a.m20, a.m21, a.m22, a.m23, b.m02, b.m12, b.m22, b.m32, lim),
        m23: dot4_s(a.m20, a.m21, a.m22, a.m23, b.m03, b.m13, b.m23, b.m33, lim),
        m30: dot4_s(a.m30, a.m31, a.m32, a.m33, b.m00, b.m10, b.m20, b.m30, lim),
        m31: dot4_s(a.m30, a.m31, a.m32, a.m33, b.m01, b.m11, b.m21, b.m31, lim),
        m32: dot4_s(a.m30, a.m31, a.m32, a.m33, b.m02, b.m12, b.m22, b.m32, lim),
        m33: dot4_s(a.m30, a.m31, a.m32, a.m33, b.m03, b.m13, b.m23, b.m33, lim),
    }
}

/// Saturated halving of the sum of two entries, used for symmetrisation.
pub open spec fn avg_s(a: int, b: int) -> int {
    tdiv_s(a + b, 2)
}

/// Symmetrise a matrix: average each entry with its mirror.
pub open spec fn mat_symmetrize_s(a: Mat4V) -> Mat4V {
    Mat4V {
        m00: a.m00,
        m01: avg_s(a.m01, a.m10),
        m02: avg_s(a.m02, a.m20),
        m03: avg_s(a.m03, a.m30),
        m10: avg_s(a.m10, a.m01),
        m11: a.m11,
        m12: avg_s(a.m12, a.m21),
        m13: avg_s(a.m13, a.m31),
        m20: avg_s(a.m20, a.m02),
        m21: avg_s(a.m21, a.m12),
        m22: a.m22,
        m23: avg_s(a.m23, a.m32),
        m30: avg_s(a.m30, a.m03),
        m31: avg_s(a.m31, a.m13),
        m32: avg_s(a.m32, a.m23),
        m33: a.m33,
    }
}

/// Executable saturated row-column dot product.
fn dot4(
    a0: i64,
    a1: i64,
    a2: i64,
    a3: i64,
    b0: i64,
    b1: i64,
    b2: i64,
    b3: i64,
    lim: i64,
) -> (r: i64)
    requires
        -MAT_LIMIT <= a0 <= MAT_LIMIT,
        -MAT_LIMIT <= a1 <= MAT_LIMIT,
        -MAT_LIMIT <= a2 <= MAT_LIMIT,
        -MAT_LIMIT <= a3 <= MAT_LIMIT,
        -MAT_LIMIT <= b0 <= MAT_LIMIT,
        -MAT_LIMIT <= b1 <= MAT_LIMIT,
        -MAT_LIMIT <= b2 <= MAT_LIMIT,
        -MAT_LIMIT <= b3 <= MAT_LIMIT,
        0 < lim,
    ensures
        r == dot4_s(a0 as int, a1 as int, a2 as int, a3 as int, b0 as int, b1 as int, b2 as int,
            b3 as int, lim as int),
        -lim <= r <= lim,
{
    proof {
        lemma_abs_mul_bound(a0 as int, b0 as int, MAT_LIMIT as int, MAT_LIMIT as int);
        lemma_abs_mul_bound(a1 as int, b1 as int, MAT_LIMIT as int, MAT_LIMIT as int);
        lemma_abs_mul_bound(a2 as int, b2 as int, MAT_LIMIT as int, MAT_LIMIT as int);
        lemma_abs_mul_bound(a3 as int, b3 as int, MAT_LIMIT as int, MAT_LIMIT as int);
    }
    let num: i128 = (a0 as i128) * (b0 as i128) + (a1 as i128) * (b1 as i128) + (a2 as i128) * (
    b2 as i128) + (a3 as i128) * (b3 as i128);
    scale_div_sat(num, SCALE as i128, lim)
}

impl Mat4 {
    /// Saturated entry-wise sum.
    pub fn plus(&self, other: &Mat4, lim: i64) -> (r: Mat4)
        requires
            0 < lim <= MAT_LIMIT,
        ensures
            r@ == mat_add_s(self@, other@, lim as int),
            mat_bounded_s(r@, lim as int),
    {
        Mat4 {
            m00: sat_i128(self.m00 as i128 + other.m00 as i128, lim),
            m01: sat_i128(self.m01 as i128 + other.m01 as i128, lim),
            m02: sat_i128(self.m02 as i128 + other.m02 as i128, lim),
            m03: sat_i128(self.m03 as i128 + other.m03 as i128, lim),
            m10: sat_i128(self.m10 as i128 + other.m10 as i128, lim),
            m11: sat_i128(self.m11 as i128 + other.m11 as i128, lim),
            m12: sat_i128(self.m12 as i128 + other.m12 as i128, lim),
            m13: sat_i128(self.m13 as i128 + other.m13 as i128, lim),
            m20: sat_i128(self.m20 as i128 + other.m20 as i128, lim),
            m21: sat_i128(self.m21 as i128 + other.m21 as i128, lim),
            m22: sat_i128(self.m22 as i128 + other.m22 as i128, lim),
            m23: sat_i128(self.m23 as i128 + other.m23 as i128, lim),
            m30: sat_i128(self.m30 as i128 + other.m30 as i128, lim),
            m31: sat_i128(self.m31 as i128 + other.m31 as i128, lim),
            m32: sat_i128(self.m32 as i128 + other.m32 as i128, lim),
            m33: sat_i128(self.m33 as i128 + other.m33 as i128, lim),
        }
    }

    /// Saturated entry-wise difference.
    pub fn minus(&self, other: &Mat4, lim: i64) -> (r: Mat4)
        requires
            0 < lim <= MAT_LIMIT,
        ensures
            r@ == mat_sub_s(self@, other@, lim as int),
            mat_bounded_s(r@, lim as int),
    {
        Mat4 {
            m00: sat_i128(self.m00 as i128 - other.m00 as i128, lim),
            m01: sat_i128(self.m01 as i128 - other.m01 as i128, lim),
            m02: sat_i128(self.m02 as i128 - other.m02 as i128, lim),
            m03: sat_i128(self.m03 as i128 - other.m03 as i128, lim),
            m10: sat_i128(self.m10 as i128 - other.m10 as i128, lim),
            m11: sat_i128(self.m11 as i128 - other.m11 as i128, lim),
            m12: sat_i128(self.m12 as i128 - other.m12 as i128, lim),
            m13: sat_i128(self.m13 as i128 - other.m13 as i128, lim),
            m20: sat_i128(self.m20 as i128 - other.m20 as i128, lim),
            m21: sat_i128(self.m21 as i128 - other.m21 as i128, lim),
            m22: sat_i128(self.m22 as i128 - other.m22 as i128, lim),
            m23: sat_i128(self.m23 as i128 - other.m23 as i128, lim),
            m30: sat_i128(self.m30 as i128 - other.m30 as i128, lim),
            m31: sat_i128(self.m31 as i128 - other.m31 as i128, lim),
            m32: sat_i128(self.m32 as i128 - other.m32 as i128, lim),
            m33: sat_i128(self.m33 as i128 - other.m33 as i128, lim),
        }
    }

    /// Transpose.
    pub fn transpose(&self) -> (r: Mat4)
        ensures
            r@ == mat_transpose_s(self@),
    {
        Mat4 {
            m00: self.m00,
            m01: self.m10,
            m02: self.m20,
            m03: self.m30,
            m10: self.m01,
            m11: self.m11,
            m12: self.m21,
            m13: self.m31,
            m20: self.m02,
            m21: self.m12,
            m22: self.m22,
            m23: self.m32,
            m30: self.m03,
            m31: self.m13,
            m32: self.m23,
            m33: self.m33,
        }
    }

    /// Clamp every entry into `[-lim, lim]`.
    pub fn clamp_entries(&self, lim: i64) -> (r: Mat4)
        requires
            0 < lim,
        ensures
            r@ == mat_clamp_s(self@, lim as int),
            mat_bounded_s(r@, lim as int),
    {
        Mat4 {
            m00: sat_i128(self.m00 as i128, lim),
            m01: sat_i128(self.m01 as i128, lim),
            m02: sat_i128(self.m02 as i128, lim),
            m03: sat_i128(self.m03 as i128, lim),
            m10: sat_i128(self.m10 as i128, lim),
            m11: sat_i128(self.m11 as i128, lim),
            m12: sat_i128(self.m12 as i128, lim),
            m13: sat_i128(self.m13 as i128, lim),
            m20: sat_i128(self.m20 as i128, lim),
            m21: sat_i128(self.m21 as i128, lim),
            m22: sat_i128(self.m22 as i128, lim),
            m23: sat_i128(self.m23 as i128, lim),
            m30: sat_i128(self.m30 as i128, lim),
            m31: sat_i128(self.m31 as i128, lim),
            m32: sat_i128(self.m32 as i128, lim),
            m33: sat_i128(self.m33 as i128, lim),
        }
    }

    /// Average each entry with its mirror so the result is symmetric.
    pub fn symmetrize(&self) -> (r: Mat4)
        requires
            mat_bounded_s(self@, MAT_LIMIT as int),
        ensures
            r@ == mat_symmetrize_s(self@),
            mat_symmetric_s(r@),
    {
        Mat4 {
            m00: self.m00,
            m01: avg(self.m01, self.m10),
            m02: avg(self.m02, self.m20),
            m03: avg(self.m03, self.m30),
            m10: avg(self.m10, self.m01),
            m11: self.m11,
            m12: avg(self.m12, self.m21),
            m13: avg(self.m13, self.m31),
            m20: avg(self.m20, self.m02),
            m21: avg(self.m21, self.m12),
            m22: self.m22,
            m23: avg(self.m23, self.m32),
            m30: avg(self.m30, self.m03),
            m31: avg(self.m31, self.m13),
            m32: avg(self.m32, self.m23),
            m33: self.m33,
        }
    }

    /// Runtime check that the matrix equals its transpose.
    pub fn is_symmetric(&self) -> (r: bool)
        ensures
            r == mat_symmetric_s(self@),
    {
        self.m01 == self.m10 && self.m02 == self.m20 && self.m03 == self.m30 && self.m12
            == self.m21 && self.m13 == self.m31 && self.m23 == self.m32
    }

    /// Runtime check that every entry lies within `[-lim, lim]`.
    pub fn within(&self, lim: i64) -> (r: bool)
        requires
            lim >= 0,
        ensures
            r == mat_bounded_s(self@, lim as int),
    {
        -lim <= self.m00 && self.m00 <= lim && -lim <= self.m01 && self.m01 <= lim && -lim
            <= self.m02 && self.m02 <= lim && -lim <= self.m03 && self.m03 <= lim && -lim
            <= self.m10 && self.m10 <= lim && -lim <= self.m11 && self.m11 <= lim && -lim
            <= self.m12 && self.m12 <= lim && -lim <= self.m13 && self.m13 <= lim && -lim
            <= self.m20 && self.m20 <= lim && -lim <= self.m21 && self.m21 <= lim && -lim
            <= self.m22 && self.m22 <= lim && -lim <= self.m23 && self.m23 <= lim && -lim
            <= self.m30 && self.m30 <= lim && -lim <= self.m31 && self.m31 <= lim && -lim
            <= self.m32 && self.m32 <= lim && -lim <= self.m33 && self.m33 <= lim
    }

    /// Saturated matrix product.
    pub fn times(&self, other: &Mat4, lim: i64) -> (r: Mat4)
        requires
            mat_bounded_s(self@, MAT_LIMIT as int),
            mat_bounded_s(other@, MAT_LIMIT as int),
            0 < lim,
        ensures
            r@ == mat_mul_s(self@, other@, lim as int),
            mat_bounded_s(r@, lim as int),
    {
        Mat4 {
            m00: dot4(self.m00, self.m01, self.m02, self.m03, other.m00, other.m10, other.m20,
                other.m30, lim),
            m01: dot4(self.m00, self.m01, self.m02, self.m03, other.m01, other.m11, other.m21,
                other.m31, lim),
            m02: dot4(self.m00, self.m01, self.m02, self.m03, other.m02, other.m12, other.m22,
                other.m32, lim),
            m03: dot4(self.m00, self.m01, self.m02, self.m03, other.m03, other.m13, other.m23,
                other.m33, lim),
            m10: dot4(self.m10, self.m11, self.m12, self.m13, other.m00, other.m10, other.m20,
                other.m30, lim),
            m11: dot4(self.m10, self.m11, self.m12, self.m13, other.m01, other.m11, other.m21,
                other.m31, lim),
            m12: dot4(self.m10, self.m11, self.m12, self.m13, other.m02, other.m12, other.m22,
                other.m32, lim),
            m13: dot4(self.m10, self.m11, self.m12, self.m13, other.m03, other.m13, other.m23,
                other.m33, lim),
            m20: dot4(self.m20, self.m21, self.m22, self.m23, other.m00, other.m10, other.m20,
                other.m30, lim),
            m21: dot4(self.m20, self.m21, self.m22, self.m23, other.m01, other.m11, other.m21,
                other.m31, lim),
            m22: dot4(self.m20, self.m21, self.m22, self.m23, other.m02, other.m12, other.m22,
                other.m32, lim),
            m23: dot4(self.m20, self.m21, self.m22, self.m23, other.m03, other.m13, other.m23,
                other.m33, lim),
            m30: dot4(self.m30, self.m31, self.m32, self.m33, other.m00, other.m10, other.m20,
                other.m30, lim),
            m31: dot4(self.m30, self.m31, self.m32, self.m33, other.m01, other.m11, other.m21,
                other.m31, lim),
            m32: dot4(self.m30, self.m31, self.m32, self.m33, other.m02, other.m12, other.m22,
                other.m32, lim),
            m33: dot4(self.m30, self.m31, self.m32, self.m33, other.m03, other.m13, other.m23,
                other.m33, lim),
        }
    }
}

/// Bound on a 3x3 determinant of entries within `INV_IN_LIMIT`.
pub const DET3_LIMIT: i128 = 93_750_000_000_000_000_000_000_000;

/// Bound on a 4x4 determinant of entries within `INV_IN_LIMIT`.
pub const DET4_LIMIT: i128 = 93_750_000_000_000_000_000_000_000_000_000_000;

/// Determinant of a 3x3 matrix given row major.
pub open spec fn det3_s(
    a: int,
    b: int,
    c: int,
    d: int,
    e: int,
    f: int,
    g: int,
    h: int,
    i: int,
) -> int {
    a * (e * i - f * h) - b * (d * i - f * g) + c * (d * h - e * g)
}

/// Determinant of the matrix, exact (no rescaling): a matrix of ticks has a
/// determinant in ticks to the fourth power.
pub open spec fn mat_det_s(m: Mat4V) -> int {
    m.m00 * det3_s(m.m11, m.m12, m.m13, m.m21, m.m22, m.m23, m.m31, m.m32, m.m33) - m.m01
        * det3_s(m.m10, m.m12, m.m13, m.m20, m.m22, m.m23, m.m30, m.m32, m.m33) + m.m02
        * det3_s(m.m10, m.m11, m.m13, m.m20, m.m21, m.m23, m.m30, m.m31, m.m33) - m.m03
        * det3_s(m.m10, m.m11, m.m12, m.m20, m.m21, m.m22, m.m30, m.m31, m.m32)
}

/// One entry of the rescaled inverse: cofactor times `SCALE` squared over
/// the determinant, saturated.
pub open spec fn inv_entry_s(c: int, det: int) -> int {
    sat_s(tdiv_s(c * (SCALE as int) * (SCALE as int), det), SINV_LIMIT as int)
}

/// The rescaled, saturated inverse: entry (i, j) is the cofactor (j, i)
/// scaled by `SCALE` squared and divided by the determinant.
pub open spec fn mat_inv_s(m: Mat4V, det: int) -> Mat4V {
    Mat4V {
        m00: inv_entry_s(det3_s(m.m11, m.m12, m.m13, m.m21, m.m22, m.m23, m.m31, m.m32, m.m33), det),
        m01: inv_entry_s(-det3_s(m.m01, m.m02, m.m03, m.m21, m.m22, m.m23, m.m31, m.m32, m.m33), det),
        m02: inv_entry_s(det3_s(m.m01, m.m02, m.m03, m.m11, m.m12, m.m13, m.m31, m.m32, m.m33), det),
        m03: inv_entry_s(-det3_s(m.m01, m.m02, m.m03, m.m11, m.m12, m.m13, m.m21, m.m22, m.m23), det),
        m10: inv_entry_s(-det3_s(m.m10, m.m12, m.m13, m.m20, m.m22, m.m23, m.m30, m.m32, m.m33), det),
        m11: inv_entry_s(det3_s(m.m00, m.m02, m.m03, m.m20, m.m22, m.m23, m.m30, m.m32, m.m33), det),
        m12: inv_entry_s(-det3_s(m.m00, m.m02, m.m03, m.m10, m.m12, m.m13, m.m30, m.m32, m.m33), det),
        m13: inv_entry_s(det3_s(m.m00, m.m02, m.m03, m.m10, m.m12, m.m13, m.m20, m.m22, m.m23), det),
        m20: inv_entry_s(det3_s(m.m10, m.m11, m.m13, m.m20, m.m21, m.m23, m.m30, m.m31, m.m33), det),
        m21: inv_entry_s(-det3_s(m.m00, m.m01, m.m03, m.m20, m.m21, m.m23, m.m30, m.m31, m.m33), det),
        m22: inv_entry_s(det3_s(m.m00, m.m01, m.m03, m.m10, m.m11, m.m13, m.m30, m.m31, m.m33), det),
        m23: inv_entry_s(-det3_s(m.m00, m.m01, m.m03, m.m10, m.m11, m.m13, m.m20, m.m21, m.m23), det),
        m30: inv_entry_s(-det3_s(m.m10, m.m11, m.m12, m.m20, m.m21, m.m22, m.m30, m.m31, m.m32), det),
        m31: inv_entry_s(det3_s(m.m00, m.m01, m.m02, m.m20, m.m21, m.m22, m.m30, m.m31, m.m32), det),
        m32: inv_entry_s(-det3_s(m.m00, m.m01, m.m02, m.m10, m.m11, m.m12, m.m30, m.m31, m.m32), det),
        m33: inv_entry_s(det3_s(m.m00, m.m01, m.m02, m.m10, m.m11, m.m12, m.m20, m.m21, m.m22), det),
    }
}

/// Executable 3x3 determinant over wide intermediates.
fn det3(a: i64, b: i64, c: i64, d: i64, e: i64, f: i64, g: i64, h: i64, i: i64) -> (r: i128)
    requires
        -INV_IN_LIMIT <= a <= INV_IN_LIMIT,
        -INV_IN_LIMIT <= b <= INV_IN_LIMIT,
        -INV_IN_LIMIT <= c <= INV_IN_LIMIT,
        -INV_IN_LIMIT <= d <= INV_IN_LIMIT,
        -INV_IN_LIMIT <= e <= INV_IN_LIMIT,
        -INV_IN_LIMIT <= f <= INV_IN_LIMIT,
        -INV_IN_LIMIT <= g <= INV_IN_LIMIT,
        -INV_IN_LIMIT <= h <= INV_IN_LIMIT,
        -INV_IN_LIMIT <= i <= INV_IN_LIMIT,
    ensures
        r == det3_s(a as int, b as int, c as int, d as int, e as int, f as int, g as int, h as int,
            i as int),
        -DET3_LIMIT <= r <= DET3_LIMIT,
{
    proof {
        let l: int = INV_IN_LIMIT as int;
        lemma_abs_mul_bound(e as int, i as int, l, l);
        lemma_abs_mul_bound(f as int, h as int, l, l);
        lemma_abs_mul_bound(d as int, i as int, l, l);
        lemma_abs_mul_bound(f as int, g as int, l, l);
        lemma_abs_mul_bound(d as int, h as int, l, l);
        lemma_abs_mul_bound(e as int, g as int, l, l);
        lemma_abs_mul_bound(a as int, e as int * i as int - f as int * h as int, l, 2 * l * l);
        lemma_abs_mul_bound(b as int, d as int * i as int - f as int * g as int, l, 2 * l * l);
        lemma_abs_mul_bound(c as int, d as int * h as int - e as int * g as int, l, 2 * l * l);
    }
    (a as i128) * ((e as i128) * (i as i128) - (f as i128) * (h as i128)) - (b as i128) * ((
    d as i128) * (i as i128) - (f as i128) * (g as i128)) + (c as i128) * ((d as i128) * (h as i128)
        - (e as i128) * (g as i128))
}

/// One executable entry of the rescaled inverse.
fn inv_entry(c: i128, det: i128) -> (r: i64)
    requires
        det != 0,
        -DET3_LIMIT <= c <= DET3_LIMIT,
    ensures
        r == inv_entry_s(c as int, det as int),
        -SINV_LIMIT <= r <= SINV_LIMIT,
{
    proof {
        lemma_abs_mul_bound(
            c as int * (SCALE as int),
            SCALE as int,
            DET3_LIMIT as int * (SCALE as int),
            SCALE as int,
        );
        lemma_abs_mul_bound(c as int, SCALE as int, DET3_LIMIT as int, SCALE as int);
    }
    let num: i128 = c * (SCALE as i128) * (SCALE as i128);
    scale_div_sat(num, det, SINV_LIMIT)
}

impl Mat4 {
    /// Exact determinant, in ticks to the fourth power.
    pub fn determinant(&self) -> (r: i128)
        requires
            mat_bounded_s(self@, INV_IN_LIMIT as int),
        ensures
            r == mat_det_s(self@),
            -DET4_LIMIT <= r <= DET4_LIMIT,
    {
        let d0: i128 = det3(self.m11, self.m12, self.m13, self.m21, self.m22, self.m23, self.m31,
            self.m32, self.m33);
        let d1: i128 = det3(self.m10, self.m12, self.m13, self.m20, self.m22, self.m23, self.m30,
            self.m32, self.m33);
        let d2: i128 = det3(self.m10, self.m11, self.m13, self.m20, self.m21, self.m23, self.m30,
            self.m31, self.m33);
        let d3: i128 = det3(self.m10, self.m11, self.m12, self.m20, self.m21, self.m22, self.m30,
            self.m31, self.m32);
        proof {
            let l: int = INV_IN_LIMIT as int;
            lemma_abs_mul_bound(self.m00 as int, d0 as int, l, DET3_LIMIT as int);
            lemma_abs_mul_bound(self.m01 as int, d1 as int, l, DET3_LIMIT as int);
            lemma_abs_mul_bound(self.m02 as int, d2 as int, l, DET3_LIMIT as int);
            lemma_abs_mul_bound(self.m03 as int, d3 as int, l, DET3_LIMIT as int);
        }
        (self.m00 as i128) * d0 - (self.m01 as i128) * d1 + (self.m02 as i128) * d2 - (
        self.m03 as i128) * d3
    }

    /// Rescaled inverse via the adjugate.  Returns `None` exactly when the
    /// determinant is zero.
    pub fn invert_scaled(&self) -> (r: Option<Mat4>)
        requires
            mat_bounded_s(self@, INV_IN_LIMIT as int),
        ensures
            mat_det_s(self@) == 0 <==> r is None,
            r matches Some(inv) ==> inv@ == mat_inv_s(self@, mat_det_s(self@)),
            r matches Some(inv) ==> mat_bounded_s(inv@, SINV_LIMIT as int),
    {
        let det: i128 = self.determinant();
        if det == 0 {
            return None;
        }
        let c00: i128 = det3(self.m11, self.m12, self.m13, self.m21, self.m22, self.m23, self.m31,
            self.m32, self.m33);
        let c01: i128 = -det3(self.m10, self.m12, self.m13, self.m20, self.m22, self.m23, self.m30,
            self.m32, self.m33);
        let c02: i128 = det3(self.m10, self.m11, self.m13, self.m20, self.m21, self.m23, self.m30,
            self.m31, self.m33);
        let c03: i128 = -det3(self.m10, self.m11, self.m12, self.m20, self.m21, self.m22, self.m30,
            self.m31, self.m32);
        let c10: i128 = -det3(self.m01, self.m02, self.m03, self.m21, self.m22, self.m23, self.m31,
            self.m32, self.m33);
        let c11: i128 = det3(self.m00, self.m02, self.m03, self.m20, self.m22, self.m23, self.m30,
            self.m32, self.m33);
        let c12: i128 = -det3(self.m00, self.m01, self.m03, self.m20, self.m21, self.m23, self.m30,
            self.m31, self.m33);
        let c13: i128 = det3(self.m00, self.m01, self.m02, self.m20, self.m21, self.m22, self.m30,
            self.m31, self.m32);
        let c20: i128 = det3(self.m01, self.m02, self.m03, self.m11, self.m12, self.m13, self.m31,
            self.m32, self.m33);
        let c21: i128 = -det3(self.m00, self.m02, self.m03, self.m10, self.m12, self.m13, self.m30,
            self.m32, self.m33);
        let c22: i128 = det3(self.m00, self.m01, self.m03, self.m10, self.m11, self.m13, self.m30,
            self.m31, self.m33);
        let c23: i128 = -det3(self.m00, self.m01, self.m02, self.m10, self.m11, self.m12, self.m30,
            self.m31, self.m32);
        let c30: i128 = -det3(self.m01, self.m02, self.m03, self.m11, self.m12, self.m13, self.m21,
            self.m22, self.m23);
        let c31: i128 = det3(self.m00, self.m02, self.m03, self.m10, self.m12, self.m13, self.m20,
            self.m22, self.m23);
        let c32: i128 = -det3(self.m00, self.m01, self.m03, self.m10, self.m11, self.m13, self.m20,
            self.m21, self.m23);
        let c33: i128 = det3(self.m00, self.m01, self.m02, self.m10, self.m11, self.m12, self.m20,
            self.m21, self.m22);
        Some(
            Mat4 {
                m00: inv_entry(c00, det),
                m01: inv_entry(c10, det),
                m02: inv_entry(c20, det),
                m03: inv_entry(c30, det),
                m10: inv_entry(c01, det),
                m11: inv_entry(c11, det),
                m12: inv_entry(c21, det),
                m13: inv_entry(c31, det),
                m20: inv_entry(c02, det),
                m21: inv_entry(c12, det),
                m22: inv_entry(c22, det),
                m23: inv_entry(c32, det),
                m30: inv_entry(c03, det),
                m31: inv_entry(c13, det),
                m32: inv_entry(c23, det),
                m33: inv_entry(c33, det),
            },
        )
    }
}

/// Executable symmetrisation average.
fn avg(a: i64, b: i64) -> (r: i64)
    requires
        -MAT_LIMIT <= a <= MAT_LIMIT,
        -MAT_LIMIT <= b <= MAT_LIMIT,
    ensures
        r == avg_s(a as int, b as int),
{
    let wide: i128 = a as i128 + b as i128;
    let q: i128 = tdiv_i128(wide, 2);
    proof {
        lemma_tdiv_magnitude(wide as int, 2, 2 * (MAT_LIMIT as int), 1);
    }
    q as i64
}

} // verus!

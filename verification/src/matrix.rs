//! A 4x4 matrix over fixed-point entries, with the multiply, translate and
//! scale helpers the view transform composes.
//!
//! Entries are fixed-point (millionths); a product rescales each entry sum
//! by [`FX_ONE`]. Points are column vectors, so a translation lives in the
//! last column and composition reads left to right in application order.

use crate::fixed::{lemma_tdiv_bound, lemma_tdiv_exact, lemma_tdiv_magnitude, tdiv, FX_ONE};
use vstd::prelude::*;

verus! {

/// Largest entry magnitude the matrix product accepts without overflowing:
/// one and a half million units.
pub const MAT_LIMIT: i64 = 1_500_000_000_000;

/// A 4x4 matrix of fixed-point entries, row by row; `m03` is row 0,
/// column 3.
#[derive(Clone, Copy, Debug, PartialEq, Eq, Structural)]
pub struct Mat4 {
    pub m00: i64,
    pub m01: i64,
    pub m02: i64,
    pub m03: i64,
    pub m10: i64,
    pub m11: i64,
    pub m12: i64,
    pub m13: i64,
    pub m20: i64,
    pub m21: i64,
    pub m22: i64,
    pub m23: i64,
    pub m30: i64,
    pub m31: i64,
    pub m32: i64,
    pub m33: i64,
}

/// One entry of a fixed-point matrix product: the row-column sum rescaled
/// to millionths.
pub open spec fn s_dot4(a0: int, a1: int, a2: int, a3: int, b0: int, b1: int, b2: int, b3: int) -> int {
    tdiv(a0 * b0 + a1 * b1 + a2 * b2 + a3 * b3, FX_ONE as int)
}

/// The fixed-point matrix product.
pub open spec fn s_mat_mul(a: Mat4, b: Mat4) -> Mat4 {
    Mat4 {
        m00: s_dot4(a.m00 as int, a.m01 as int, a.m02 as int, a.m03 as int, b.m00 as int, b.m10 as int, b.m20 as int, b.m30 as int) as i64,
        m01: s_dot4(a.m00 as int, a.m01 as int, a.m02 as int, a.m03 as int, b.m01 as int, b.m11 as int, b.m21 as int, b.m31 as int) as i64,
        m02: s_dot4(a.m00 as int, a.m01 as int, a.m02 as int, a.m03 as int, b.m02 as int, b.m12 as int, b.m22 as int, b.m32 as int) as i64,
        m03: s_dot4(a.m00 as int, a.m01 as int, a.m02 as int, a.m03 as int, b.m03 as int, b.m13 as int, b.m23 as int, b.m33 as int) as i64,
        m10: s_dot4(a.m10 as int, a.m11 as int, a.m12 as int, a.m13 as int, b.m00 as int, b.m10 as int, b.m20 as int, b.m30 as int) as i64,
        m11: s_dot4(a.m10 as int, a.m11 as int, a.m12 as int, a.m13 as int, b.m01 as int, b.m11 as int, b.m21 as int, b.m31 as int) as i64,
        m12: s_dot4(a.m10 as int, a.m11 as int, a.m12 as int, a.m13 as int, b.m02 as int, b.m12 as int, b.m22 as int, b.m32 as int) as i64,
        m13: s_dot4(a.m10 as int, a.m11 as int, a.m12 as int, a.m13 as int, b.m03 as int, b.m13 as int, b.m23 as int, b.m33 as int) as i64,
        m20: s_dot4(a.m20 as int, a.m21 as int, a.m22 as int, a.m23 as int, b.m00 as int, b.m10 as int, b.m20 as int, b.m30 as int) as i64,
        m21: s_dot4(a.m20 as int, a.m21 as int, a.m22 as int, a.m23 as int, b.m01 as int, b.m11 as int, b.m21 as int, b.m31 as int) as i64,
        m22: s_dot4(a.m20 as int, a.m21 as int, a.m22 as int, a.m23 as int, b.m02 as int, b.m12 as int, b.m22 as int, b.m32 as int) as i64,
        m23: s_dot4(a.m20 as int, a.m21 as int, a.m22 as int, a.m23 as int, b.m03 as int, b.m13 as int, b.m23 as int, b.m33 as int) as i64,
        m30: s_dot4(a.m30 as int, a.m31 as int, a.m32 as int, a.m33 as int, b.m00 as int, b.m10 as int, b.m20 as int, b.m30 as int) as i64,
        m31: s_dot4(a.m30 as int, a.m31 as int, a.m32 as int, a.m33 as int, b.m01 as int, b.m11 as int, b.m21 as int, b.m31 as int) as i64,
        m32: s_dot4(a.m30 as int, a.m31 as int, a.m32 as int, a.m33 as int, b.m02 as int, b.m12 as int, b.m22 as int, b.m32 as int) as i64,
        m33: s_dot4(a.m30 as int, a.m31 as int, a.m32 as int, a.m33 as int, b.m03 as int, b.m13 as int, b.m23 as int, b.m33 as int) as i64,
    }
}

/// The identity: ones down the diagonal, in millionths.
pub open spec fn s_identity() -> Mat4 {
    Mat4 {
        m00: FX_ONE, m01: 0, m02: 0, m03: 0,
        m10: 0, m11: FX_ONE, m12: 0, m13: 0,
        m20: 0, m21: 0, m22: FX_ONE, m23: 0,
        m30: 0, m31: 0, m32: 0, m33: FX_ONE,
    }
}

/// A translation by `(tx, ty)` in the view plane.
pub open spec fn s_translation(tx: int, ty: int) -> Mat4 {
    Mat4 {
        m00: FX_ONE, m01: 0, m02: 0, m03: tx as i64,
        m10: 0, m11: FX_ONE, m12: 0, m13: ty as i64,
        m20: 0, m21: 0, m22: FX_ONE, m23: 0,
        m30: 0, m31: 0, m32: 0, m33: FX_ONE,
    }
}

/// A scaling of the view plane by `s`, leaving depth alone.
pub open spec fn s_scaling(s: int) -> Mat4 {
    Mat4 {
        m00: s as i64, m01: 0, m02: 0, m03: 0,
        m10: 0, m11: s as i64, m12: 0, m13: 0,
        m20: 0, m21: 0, m22: FX_ONE, m23: 0,
        m30: 0, m31: 0, m32: 0, m33: FX_ONE,
    }
}

impl Mat4 {
    /// Whether every entry is small enough to run through a product.
    pub open spec fn bounded(self) -> bool {
        &&& -MAT_LIMIT <= self.m00 <= MAT_LIMIT
        &&& -MAT_LIMIT <= self.m01 <= MAT_LIMIT
        &&& -MAT_LIMIT <= self.m02 <= MAT_LIMIT
        &&& -MAT_LIMIT <= self.m03 <= MAT_LIMIT
        &&& -MAT_LIMIT <= self.m10 <= MAT_LIMIT
        &&& -MAT_LIMIT <= self.m11 <= MAT_LIMIT
        &&& -MAT_LIMIT <= self.m12 <= MAT_LIMIT
        &&& -MAT_LIMIT <= self.m13 <= MAT_LIMIT
        &&& -MAT_LIMIT <= self.m20 <= MAT_LIMIT
        &&& -MAT_LIMIT <= self.m21 <= MAT_LIMIT
        &&& -MAT_LIMIT <= self.m22 <= MAT_LIMIT
        &&& -MAT_LIMIT <= self.m23 <= MAT_LIMIT
        &&& -MAT_LIMIT <= self.m30 <= MAT_LIMIT
        &&& -MAT_LIMIT <= self.m31 <= MAT_LIMIT
        &&& -MAT_LIMIT <= self.m32 <= MAT_LIMIT
        &&& -MAT_LIMIT <= self.m33 <= MAT_LIMIT
    }

    /// The identity matrix.
    pub fn identity() -> (m: Mat4)
        ensures
            m == s_identity(),
            m.bounded(),
    {
        Mat4 {
            m00: FX_ONE, m01: 0, m02: 0, m03: 0,
            m10: 0, m11: FX_ONE, m12: 0, m13: 0,
            m20: 0, m21: 0, m22: FX_ONE, m23: 0,
            m30: 0, m31: 0, m32: 0, m33: FX_ONE,
        }
    }

    /// A translation by `(tx, ty)` in the view plane.
    pub fn translation(tx: i64, ty: i64) -> (m: Mat4)
        ensures
            m == s_translation(tx as int, ty as int),
    {
        Mat4 {
            m00: FX_ONE, m01: 0, m02: 0, m03: tx,
            m10: 0, m11: FX_ONE, m12: 0, m13: ty,
            m20: 0, m21: 0, m22: FX_ONE, m23: 0,
            m30: 0, m31: 0, m32: 0, m33: FX_ONE,
        }
    }

    /// A scaling of the view plane by `s`.
    pub fn scaling(s: i64) -> (m: Mat4)
        ensures
            m == s_scaling(s as int),
    {
        Mat4 {
            m00: s, m01: 0, m02: 0, m03: 0,
            m10: 0, m11: s, m12: 0, m13: 0,
            m20: 0, m21: 0, m22: FX_ONE, m23: 0,
            m30: 0, m31: 0, m32: 0, m33: FX_ONE,
        }
    }

    /// The fixed-point matrix product `self * other`.
    pub fn mat_mul(&self, other: &Mat4) -> (m: Mat4)
        requires
            self.bounded(),
            other.bounded(),
        ensures
            m == s_mat_mul(*self, *other),
    {
        let a = *self;
        let b = *other;
        Mat4 {
            m00: dot4(a.m00, a.m01, a.m02, a.m03, b.m00, b.m10, b.m20, b.m30),
            m01: dot4(a.m00, a.m01, a.m02, a.m03, b.m01, b.m11, b.m21, b.m31),
            m02: dot4(a.m00, a.m01, a.m02, a.m03, b.m02, b.m12, b.m22, b.m32),
            m03: dot4(a.m00, a.m01, a.m02, a.m03, b.m03, b.m13, b.m23, b.m33),
            m10: dot4(a.m10, a.m11, a.m12, a.m13, b.m00, b.m10, b.m20, b.m30),
            m11: dot4(a.m10, a.m11, a.m12, a.m13, b.m01, b.m11, b.m21, b.m31),
            m12: dot4(a.m10, a.m11, a.m12, a.m13, b.m02, b.m12, b.m22, b.m32),
            m13: dot4(a.m10, a.m11, a.m12, a.m13, b.m03, b.m13, b.m23, b.m33),
            m20: dot4(a.m20, a.m21, a.m22, a.m23, b.m00, b.m10, b.m20, b.m30),
            m21: dot4(a.m20, a.m21, a.m22, a.m23, b.m01, b.m11, b.m21, b.m31),
            m22: dot4(a.m20, a.m21, a.m22, a.m23, b.m02, b.m12, b.m22, b.m32),
            m23: dot4(a.m20, a.m21, a.m22, a.m23, b.m03, b.m13, b.m23, b.m33),
            m30: dot4(a.m30, a.m31, a.m32, a.m33, b.m00, b.m10, b.m20, b.m30),
            m31: dot4(a.m30, a.m31, a.m32, a.m33, b.m01, b.m11, b.m21, b.m31),
            m32: dot4(a.m30, a.m31, a.m32, a.m33, b.m02, b.m12, b.m22, b.m32),
            m33: dot4(a.m30, a.m31, a.m32, a.m33, b.m03, b.m13, b.m23, b.m33),
        }
    }
}

/// One entry of the product: widen, accumulate, rescale.
fn dot4(a0: i64, a1: i64, a2: i64, a3: i64, b0: i64, b1: i64, b2: i64, b3: i64) -> (r: i64)
    requires
        -MAT_LIMIT <= a0 <= MAT_LIMIT,
        -MAT_LIMIT <= a1 <= MAT_LIMIT,
        -MAT_LIMIT <= a2 <= MAT_LIMIT,
        -MAT_LIMIT <= a3 <= MAT_LIMIT,
        -MAT_LIMIT <= b0 <= MAT_LIMIT,
        -MAT_LIMIT <= b1 <= MAT_LIMIT,
        -MAT_LIMIT <= b2 <= MAT_LIMIT,
        -MAT_LIMIT <= b3 <= MAT_LIMIT,
    ensures
        r as int == s_dot4(a0 as int, a1 as int, a2 as int, a3 as int, b0 as int, b1 as int, b2 as int, b3 as int),
{
    proof {
        lemma_dot4_term_bound(a0 as int, b0 as int);
        lemma_dot4_term_bound(a1 as int, b1 as int);
        lemma_dot4_term_bound(a2 as int, b2 as int);
        lemma_dot4_term_bound(a3 as int, b3 as int);
    }
    let p0: i128 = (a0 as i128) * (b0 as i128);
    let p1: i128 = (a1 as i128) * (b1 as i128);
    let p2: i128 = (a2 as i128) * (b2 as i128);
    let p3: i128 = (a3 as i128) * (b3 as i128);
    let sum: i128 = p0 + p1 + p2 + p3;
    proof {
        lemma_tdiv_magnitude(sum as int, FX_ONE as int);
        lemma_tdiv_bound(sum as int, FX_ONE as int, 9_223_372_036_854_775_807);
    }
    let q: i128 = crate::fixed::i128_tdiv(sum, FX_ONE as i128);
    q as i64
}

/// A product of two in-range entries stays within a quarter of the entry
/// sum budget.
proof fn lemma_dot4_term_bound(a: int, b: int)
    requires
        -MAT_LIMIT <= a <= MAT_LIMIT,
        -MAT_LIMIT <= b <= MAT_LIMIT,
    ensures
        -2_250_000_000_000_000_000_000_000 <= a * b <= 2_250_000_000_000_000_000_000_000,
{
    assert(-2_250_000_000_000_000_000_000_000 <= a * b <= 2_250_000_000_000_000_000_000_000)
        by (nonlinear_arith)
        requires
            -MAT_LIMIT <= a <= MAT_LIMIT,
            -MAT_LIMIT <= b <= MAT_LIMIT,
    ;
}

/// Multiplying by the identity on the right changes nothing.
pub proof fn lemma_mul_identity_right(m: Mat4)
    ensures
        s_mat_mul(m, s_identity()) == m,
{
    lemma_identity_dots(m.m00 as int, m.m01 as int, m.m02 as int, m.m03 as int);
    lemma_identity_dots(m.m10 as int, m.m11 as int, m.m12 as int, m.m13 as int);
    lemma_identity_dots(m.m20 as int, m.m21 as int, m.m22 as int, m.m23 as int);
    lemma_identity_dots(m.m30 as int, m.m31 as int, m.m32 as int, m.m33 as int);
}

/// Multiplying by the identity on the left changes nothing.
pub proof fn lemma_mul_identity_left(m: Mat4)
    ensures
        s_mat_mul(s_identity(), m) == m,
{
    lemma_identity_dots_left(m.m00 as int, m.m10 as int, m.m20 as int, m.m30 as int);
    lemma_identity_dots_left(m.m01 as int, m.m11 as int, m.m21 as int, m.m31 as int);
    lemma_identity_dots_left(m.m02 as int, m.m12 as int, m.m22 as int, m.m32 as int);
    lemma_identity_dots_left(m.m03 as int, m.m13 as int, m.m23 as int, m.m33 as int);
}

/// A row dotted with each identity column reproduces the row.
proof fn lemma_identity_dots(a0: int, a1: int, a2: int, a3: int)
    ensures
        s_dot4(a0, a1, a2, a3, FX_ONE as int, 0, 0, 0) == a0,
        s_dot4(a0, a1, a2, a3, 0, FX_ONE as int, 0, 0) == a1,
        s_dot4(a0, a1, a2, a3, 0, 0, FX_ONE as int, 0) == a2,
        s_dot4(a0, a1, a2, a3, 0, 0, 0, FX_ONE as int) == a3,
{
    lemma_unit_dot(a0, a1, a2, a3);
    lemma_unit_dot(a1, a0, a2, a3);
    lemma_unit_dot(a2, a0, a1, a3);
    lemma_unit_dot(a3, a0, a1, a2);
}

/// Each identity row dotted with a column reproduces the column.
proof fn lemma_identity_dots_left(b0: int, b1: int, b2: int, b3: int)
    ensures
        s_dot4(FX_ONE as int, 0, 0, 0, b0, b1, b2, b3) == b0,
        s_dot4(0, FX_ONE as int, 0, 0, b0, b1, b2, b3) == b1,
        s_dot4(0, 0, FX_ONE as int, 0, b0, b1, b2, b3) == b2,
        s_dot4(0, 0, 0, FX_ONE as int, b0, b1, b2, b3) == b3,
{
    lemma_unit_dot(b0, b1, b2, b3);
    lemma_unit_dot(b1, b0, b2, b3);
    lemma_unit_dot(b2, b0, b1, b3);
    lemma_unit_dot(b3, b0, b1, b2);
}

/// The only surviving term of a unit dot product divides back out
/// exactly.
proof fn lemma_unit_dot(x: int, y0: int, y1: int, y2: int)
    ensures
        tdiv(x * FX_ONE + y0 * 0 + y1 * 0 + y2 * 0, FX_ONE as int) == x,
        tdiv(FX_ONE as int * x + 0 * y0 + 0 * y1 + 0 * y2, FX_ONE as int) == x,
{
    lemma_tdiv_exact(x, FX_ONE as int);
    assert(y0 * 0 == 0 && y1 * 0 == 0 && y2 * 0 == 0) by (nonlinear_arith);
    assert(0 * y0 == 0 && 0 * y1 == 0 && 0 * y2 == 0) by (nonlinear_arith);
    assert(FX_ONE as int * x == x * FX_ONE) by (nonlinear_arith);
}

} // verus!

//! 4x4 matrices of fixed-point scalars, row/column indexed, acting on
//! column vectors: in a product `a * b` the right factor applies first.

use vstd::prelude::*;
use crate::fx::{fx_mul_s, fx_mul, sabs, lemma_fx_mul_bound, ONE};

verus! {

/// Operand bound for the left factor of `mat_mul`.
pub const MUL_A_LIM: i64 = 0x40_0000;

/// Operand bound for the right factor of `mat_mul`.
pub const MUL_B_LIM: i64 = 0x4000_0000;

/// Every entry of a `mat_mul` result stays under this bound.
pub const MUL_R_LIM: i64 = 0x400_0000_0000;

/// A 4x4 matrix of fixed-point scalars; `mRC` is the entry in row `R`,
/// column `C`.
#[derive(Clone, Copy, Debug, PartialEq, Eq, Structural)]
pub struct Mat4 {
    pub m00: i64,
    pub m01: i64,
    pub m02: i64,
    pub m03: i64,
    pub m10: i64,
    pub m11: i64,
    pub m12: i64,
    pub m13: i64,
    pub m20: i64,
    pub m21: i64,
    pub m22: i64,
    pub m23: i64,
    pub m30: i64,
    pub m31: i64,
    pub m32: i64,
    pub m33: i64,
}

/// All entries of `m` have magnitude at most `lim`.
pub open spec fn bounded(m: Mat4, lim: int) -> bool {
    sabs(m.m00 as int) <= lim
    && sabs(m.m01 as int) <= lim
    && sabs(m.m02 as int) <= lim
    && sabs(m.m03 as int) <= lim
    && sabs(m.m10 as int) <= lim
    && sabs(m.m11 as int) <= lim
    && sabs(m.m12 as int) <= lim
    && sabs(m.m13 as int) <= lim
    && sabs(m.m20 as int) <= lim
    && sabs(m.m21 as int) <= lim
    && sabs(m.m22 as int) <= lim
    && sabs(m.m23 as int) <= lim
    && sabs(m.m30 as int) <= lim
    && sabs(m.m31 as int) <= lim
    && sabs(m.m32 as int) <= lim
    && sabs(m.m33 as int) <= lim
}

/// The fixed-point matrix product. Each entry is the exact four-term sum of
/// fixed-point products; the cast is the identity whenever the factors are
/// bounded as `lemma_mm_bound` asks.
pub open spec fn mm(a: Mat4, b: Mat4) -> Mat4 {
    Mat4 {
        m00: (fx_mul_s(a.m00 as int, b.m00 as int) + fx_mul_s(a.m01 as int, b.m10 as int) + fx_mul_s(a.m02 as int, b.m20 as int) + fx_mul_s(a.m03 as int, b.m30 as int)) as i64,
        m01: (fx_mul_s(a.m00 as int, b.m01 as int) + fx_mul_s(a.m01 as int, b.m11 as int) + fx_mul_s(a.m02 as int, b.m21 as int) + fx_mul_s(a.m03 as int, b.m31 as int)) as i64,
        m02: (fx_mul_s(a.m00 as int, b.m02 as int) + fx_mul_s(a.m01 as int, b.m12 as int) + fx_mul_s(a.m02 as int, b.m22 as int) + fx_mul_s(a.m03 as int, b.m32 as int)) as i64,
        m03: (fx_mul_s(a.m00 as int, b.m03 as int) + fx_mul_s(a.m01 as int, b.m13 as int) + fx_mul_s(a.m02 as int, b.m23 as int) + fx_mul_s(a.m03 as int, b.m33 as int)) as i64,
        m10: (fx_mul_s(a.m10 as int, b.m00 as int) + fx_mul_s(a.m11 as int, b.m10 as int) + fx_mul_s(a.m12 as int, b.m20 as int) + fx_mul_s(a.m13 as int, b.m30 as int)) as i64,
        m11: (fx_mul_s(a.m10 as int, b.m01 as int) + fx_mul_s(a.m11 as int, b.m11 as int) + fx_mul_s(a.m12 as int, b.m21 as int) + fx_mul_s(a.m13 as int, b.m31 as int)) as i64,
        m12: (fx_mul_s(a.m10 as int, b.m02 as int) + fx_mul_s(a.m11 as int, b.m12 as int) + fx_mul_s(a.m12 as int, b.m22 as int) + fx_mul_s(a.m13 as int, b.m32 as int)) as i64,
        m13: (fx_mul_s(a.m10 as int, b.m03 as int) + fx_mul_s(a.m11 as int, b.m13 as int) + fx_mul_s(a.m12 as int, b.m23 as int) + fx_mul_s(a.m13 as int, b.m33 as int)) as i64,
        m20: (fx_mul_s(a.m20 as int, b.m00 as int) + fx_mul_s(a.m21 as int, b.m10 as int) + fx_mul_s(a.m22 as int, b.m20 as int) + fx_mul_s(a.m23 as int, b.m30 as int)) as i64,
        m21: (fx_mul_s(a.m20 as int, b.m01 as int) + fx_mul_s(a.m21 as int, b.m11 as int) + fx_mul_s(a.m22 as int, b.m21 as int) + fx_mul_s(a.m23 as int, b.m31 as int)) as i64,
        m22: (fx_mul_s(a.m20 as int, b.m02 as int) + fx_mul_s(a.m21 as int, b.m12 as int) + fx_mul_s(a.m22 as int, b.m22 as int) + fx_mul_s(a.m23 as int, b.m32 as int)) as i64,
        m23: (fx_mul_s(a.m20 as int, b.m03 as int) + fx_mul_s(a.m21 as int, b.m13 as int) + fx_mul_s(a.m22 as int, b.m23 as int) + fx_mul_s(a.m23 as int, b.m33 as int)) as i64,
        m30: (fx_mul_s(a.m30 as int, b.m00 as int) + fx_mul_s(a.m31 as int, b.m10 as int) + fx_mul_s(a.m32 as int, b.m20 as int) + fx_mul_s(a.m33 as int, b.m30 as int)) as i64,
        m31: (fx_mul_s(a.m30 as int, b.m01 as int) + fx_mul_s(a.m31 as int, b.m11 as int) + fx_mul_s(a.m32 as int, b.m21 as int) + fx_mul_s(a.m33 as int, b.m31 as int)) as i64,
        m32: (fx_mul_s(a.m30 as int, b.m02 as int) + fx_mul_s(a.m31 as int, b.m12 as int) + fx_mul_s(a.m32 as int, b.m22 as int) + fx_mul_s(a.m33 as int, b.m32 as int)) as i64,
        m33: (fx_mul_s(a.m30 as int, b.m03 as int) + fx_mul_s(a.m31 as int, b.m13 as int) + fx_mul_s(a.m32 as int, b.m23 as int) + fx_mul_s(a.m33 as int, b.m33 as int)) as i64,
    }
}

/// Matrix product of bounded matrices.
pub fn mat_mul(a: &Mat4, b: &Mat4) -> (r: Mat4)
    requires
        bounded(*a, MUL_A_LIM as int),
        bounded(*b, MUL_B_LIM as int),
    ensures
        r == mm(*a, *b),
        bounded(r, MUL_R_LIM as int),
{
    proof {
        lemma_fx_mul_bound(a.m00 as int, b.m00 as int, MUL_A_LIM as int, MUL_B_LIM as int);
        lemma_fx_mul_bound(a.m01 as int, b.m10 as int, MUL_A_LIM as int, MUL_B_LIM as int);
        lemma_fx_mul_bound(a.m02 as int, b.m20 as int, MUL_A_LIM as int, MUL_B_LIM as int);
        lemma_fx_mul_bound(a.m03 as int, b.m30 as int, MUL_A_LIM as int, MUL_B_LIM as int);
        lemma_fx_mul_bound(a.m00 as int, b.m01 as int, MUL_A_LIM as int, MUL_B_LIM as int);
        lemma_fx_mul_bound(a.m01 as int, b.m11 as int, MUL_A_LIM as int, MUL_B_LIM as int);
        lemma_fx_mul_bound(a.m02 as int, b.m21 as int, MUL_A_LIM as int, MUL_B_LIM as int);
        lemma_fx_mul_bound(a.m03 as int, b.m31 as int, MUL_A_LIM as int, MUL_B_LIM as int);
        lemma_fx_mul_bound(a.m00 as int, b.m02 as int, MUL_A_LIM as int, MUL_B_LIM as int);
        lemma_fx_mul_bound(a.m01 as int, b.m12 as int, MUL_A_LIM as int, MUL_B_LIM as int);
        lemma_fx_mul_bound(a.m02 as int, b.m22 as int, MUL_A_LIM as int, MUL_B_LIM as int);
        lemma_fx_mul_bound(a.m03 as int, b.m32 as int, MUL_A_LIM as int, MUL_B_LIM as int);
        lemma_fx_mul_bound(a.m00 as int, b.m03 as int, MUL_A_LIM as int, MUL_B_LIM as int);
        lemma_fx_mul_bound(a.m01 as int, b.m13 as int, MUL_A_LIM as int, MUL_B_LIM as int);
        lemma_fx_mul_bound(a.m02 as int, b.m23 as int, MUL_A_LIM as int, MUL_B_LIM as int);
        lemma_fx_mul_bound(a.m03 as int, b.m33 as int, MUL_A_LIM as int, MUL_B_LIM as int);
        lemma_fx_mul_bound(a.m10 as int, b.m00 as int, MUL_A_LIM as int, MUL_B_LIM as int);
        lemma_fx_mul_bound(a.m11 as int, b.m10 as int, MUL_A_LIM as int, MUL_B_LIM as int);
        lemma_fx_mul_bound(a.m12 as int, b.m20 as int, MUL_A_LIM as int, MUL_B_LIM as int);
        lemma_fx_mul_bound(a.m13 as int, b.m30 as int, MUL_A_LIM as int, MUL_B_LIM as int);
        lemma_fx_mul_bound(a.m10 as int, b.m01 as int, MUL_A_LIM as int, MUL_B_LIM as int);
        lemma_fx_mul_bound(a.m11 as int, b.m11 as int, MUL_A_LIM as int, MUL_B_LIM as int);
        lemma_fx_mul_bound(a.m12 as int, b.m21 as int, MUL_A_LIM as int, MUL_B_LIM as int);
        lemma_fx_mul_bound(a.m13 as int, b.m31 as int, MUL_A_LIM as int, MUL_B_LIM as int);
        lemma_fx_mul_bound(a.m10 as int, b.m02 as int, MUL_A_LIM as int, MUL_B_LIM as int);
        lemma_fx_mul_bound(a.m11 as int, b.m12 as int, MUL_A_LIM as int, MUL_B_LIM as int);
        lemma_fx_mul_bound(a.m12 as int, b.m22 as int, MUL_A_LIM as int, MUL_B_LIM as int);
        lemma_fx_mul_bound(a.m13 as int, b.m32 as int, MUL_A_LIM as int, MUL_B_LIM as int);
        lemma_fx_mul_bound(a.m10 as int, b.m03 as int, MUL_A_LIM as int, MUL_B_LIM as int);
        lemma_fx_mul_bound(a.m11 as int, b.m13 as int, MUL_A_LIM as int, MUL_B_LIM as int);
        lemma_fx_mul_bound(a.m12 as int, b.m23 as int, MUL_A_LIM as int, MUL_B_LIM as int);
        lemma_fx_mul_bound(a.m13 as int, b.m33 as int, MUL_A_LIM as int, MUL_B_LIM as int);
        lemma_fx_mul_bound(a.m20 as int, b.m00 as int, MUL_A_LIM as int, MUL_B_LIM as int);
        lemma_fx_mul_bound(a.m21 as int, b.m10 as int, MUL_A_LIM as int, MUL_B_LIM as int);
        lemma_fx_mul_bound(a.m22 as int, b.m20 as int, MUL_A_LIM as int, MUL_B_LIM as int);
        lemma_fx_mul_bound(a.m23 as int, b.m30 as int, MUL_A_LIM as int, MUL_B_LIM as int);
        lemma_fx_mul_bound(a.m20 as int, b.m01 as int, MUL_A_LIM as int, MUL_B_LIM as int);
        lemma_fx_mul_bound(a.m21 as int, b.m11 as int, MUL_A_LIM as int, MUL_B_LIM as int);
        lemma_fx_mul_bound(a.m22 as int, b.m21 as int, MUL_A_LIM as int, MUL_B_LIM as int);
        lemma_fx_mul_bound(a.m23 as int, b.m31 as int, MUL_A_LIM as int, MUL_B_LIM as int);
        lemma_fx_mul_bound(a.m20 as int, b.m02 as int, MUL_A_LIM as int, MUL_B_LIM as int);
        lemma_fx_mul_bound(a.m21 as int, b.m12 as int, MUL_A_LIM as int, MUL_B_LIM as int);
        lemma_fx_mul_bound(a.m22 as int, b.m22 as int, MUL_A_LIM as int, MUL_B_LIM as int);
        lemma_fx_mul_bound(a.m23 as int, b.m32 as int, MUL_A_LIM as int, MUL_B_LIM as int);
        lemma_fx_mul_bound(a.m20 as int, b.m03 as int, MUL_A_LIM as int, MUL_B_LIM as int);
        lemma_fx_mul_bound(a.m21 as int, b.m13 as int, MUL_A_LIM as int, MUL_B_LIM as int);
        lemma_fx_mul_bound(a.m22 as int, b.m23 as int, MUL_A_LIM as int, MUL_B_LIM as int);
        lemma_fx_mul_bound(a.m23 as int, b.m33 as int, MUL_A_LIM as int, MUL_B_LIM as int);
        lemma_fx_mul_bound(a.m30 as int, b.m00 as int, MUL_A_LIM as int, MUL_B_LIM as int);
        lemma_fx_mul_bound(a.m31 as int, b.m10 as int, MUL_A_LIM as int, MUL_B_LIM as int);
        lemma_fx_mul_bound(a.m32 as int, b.m20 as int, MUL_A_LIM as int, MUL_B_LIM as int);
        lemma_fx_mul_bound(a.m33 as int, b.m30 as int, MUL_A_LIM as int, MUL_B_LIM as int);
        lemma_fx_mul_bound(a.m30 as int, b.m01 as int, MUL_A_LIM as int, MUL_B_LIM as int);
        lemma_fx_mul_bound(a.m31 as int, b.m11 as int, MUL_A_LIM as int, MUL_B_LIM as int);
        lemma_fx_mul_bound(a.m32 as int, b.m21 as int, MUL_A_LIM as int, MUL_B_LIM as int);
        lemma_fx_mul_bound(a.m33 as int, b.m31 as int, MUL_A_LIM as int, MUL_B_LIM as int);
        lemma_fx_mul_bound(a.m30 as int, b.m02 as int, MUL_A_LIM as int, MUL_B_LIM as int);
        lemma_fx_mul_bound(a.m31 as int, b.m12 as int, MUL_A_LIM as int, MUL_B_LIM as int);
        lemma_fx_mul_bound(a.m32 as int, b.m22 as int, MUL_A_LIM as int, MUL_B_LIM as int);
        lemma_fx_mul_bound(a.m33 as int, b.m32 as int, MUL_A_LIM as int, MUL_B_LIM as int);
        lemma_fx_mul_bound(a.m30 as int, b.m03 as int, MUL_A_LIM as int, MUL_B_LIM as int);
        lemma_fx_mul_bound(a.m31 as int, b.m13 as int, MUL_A_LIM as int, MUL_B_LIM as int);
        lemma_fx_mul_bound(a.m32 as int, b.m23 as int, MUL_A_LIM as int, MUL_B_LIM as int);
        lemma_fx_mul_bound(a.m33 as int, b.m33 as int, MUL_A_LIM as int, MUL_B_LIM as int);
    }
    let e00: i64 = fx_mul(a.m00, b.m00) + fx_mul(a.m01, b.m10) + fx_mul(a.m02, b.m20) + fx_mul(a.m03, b.m30);
    let e01: i64 = fx_mul(a.m00, b.m01) + fx_mul(a.m01, b.m11) + fx_mul(a.m02, b.m21) + fx_mul(a.m03, b.m31);
    let e02: i64 = fx_mul(a.m00, b.m02) + fx_mul(a.m01, b.m12) + fx_mul(a.m02, b.m22) + fx_mul(a.m03, b.m32);
    let e03: i64 = fx_mul(a.m00, b.m03) + fx_mul(a.m01, b.m13) + fx_mul(a.m02, b.m23) + fx_mul(a.m03, b.m33);
    let e10: i64 = fx_mul(a.m10, b.m00) + fx_mul(a.m11, b.m10) + fx_mul(a.m12, b.m20) + fx_mul(a.m13, b.m30);
    let e11: i64 = fx_mul(a.m10, b.m01) + fx_mul(a.m11, b.m11) + fx_mul(a.m12, b.m21) + fx_mul(a.m13, b.m31);
    let e12: i64 = fx_mul(a.m10, b.m02) + fx_mul(a.m11, b.m12) + fx_mul(a.m12, b.m22) + fx_mul(a.m13, b.m32);
    let e13: i64 = fx_mul(a.m10, b.m03) + fx_mul(a.m11, b.m13) + fx_mul(a.m12, b.m23) + fx_mul(a.m13, b.m33);
    let e20: i64 = fx_mul(a.m20, b.m00) + fx_mul(a.m21, b.m10) + fx_mul(a.m22, b.m20) + fx_mul(a.m23, b.m30);
    let e21: i64 = fx_mul(a.m20, b.m01) + fx_mul(a.m21, b.m11) + fx_mul(a.m22, b.m21) + fx_mul(a.m23, b.m31);
    let e22: i64 = fx_mul(a.m20, b.m02) + fx_mul(a.m21, b.m12) + fx_mul(a.m22, b.m22) + fx_mul(a.m23, b.m32);
    let e23: i64 = fx_mul(a.m20, b.m03) + fx_mul(a.m21, b.m13) + fx_mul(a.m22, b.m23) + fx_mul(a.m23, b.m33);
    let e30: i64 = fx_mul(a.m30, b.m00) + fx_mul(a.m31, b.m10) + fx_mul(a.m32, b.m20) + fx_mul(a.m33, b.m30);
    let e31: i64 = fx_mul(a.m30, b.m01) + fx_mul(a.m31, b.m11) + fx_mul(a.m32, b.m21) + fx_mul(a.m33, b.m31);
    let e32: i64 = fx_mul(a.m30, b.m02) + fx_mul(a.m31, b.m12) + fx_mul(a.m32, b.m22) + fx_mul(a.m33, b.m32);
    let e33: i64 = fx_mul(a.m30, b.m03) + fx_mul(a.m31, b.m13) + fx_mul(a.m32, b.m23) + fx_mul(a.m33, b.m33);
    Mat4 {
        m00: e00,
        m01: e01,
        m02: e02,
        m03: e03,
        m10: e10,
        m11: e11,
        m12: e12,
        m13: e13,
        m20: e20,
        m21: e21,
        m22: e22,
        m23: e23,
        m30: e30,
        m31: e31,
        m32: e32,
        m33: e33,
    }
}

/// Bound on the entries of a product in terms of bounds on its factors.
#[verifier::rlimit(100)]
pub proof fn lemma_mm_bound(a: Mat4, b: Mat4, aa: int, bb: int)
    requires
        bounded(a, aa),
        bounded(b, bb),
        4 * ((aa * bb) / (ONE as int)) <= 0x7fff_ffff_ffff_ffff,
    ensures
        bounded(mm(a, b), 4 * ((aa * bb) / (ONE as int))),
{
    lemma_fx_mul_bound(a.m00 as int, b.m00 as int, aa, bb);
    lemma_fx_mul_bound(a.m01 as int, b.m10 as int, aa, bb);
    lemma_fx_mul_bound(a.m02 as int, b.m20 as int, aa, bb);
    lemma_fx_mul_bound(a.m03 as int, b.m30 as int, aa, bb);
    lemma_fx_mul_bound(a.m00 as int, b.m01 as int, aa, bb);
    lemma_fx_mul_bound(a.m01 as int, b.m11 as int, aa, bb);
    lemma_fx_mul_bound(a.m02 as int, b.m21 as int, aa, bb);
    lemma_fx_mul_bound(a.m03 as int, b.m31 as int, aa, bb);
    lemma_fx_mul_bound(a.m00 as int, b.m02 as int, aa, bb);
    lemma_fx_mul_bound(a.m01 as int, b.m12 as int, aa, bb);
    lemma_fx_mul_bound(a.m02 as int, b.m22 as int, aa, bb);
    lemma_fx_mul_bound(a.m03 as int, b.m32 as int, aa, bb);
    lemma_fx_mul_bound(a.m00 as int, b.m03 as int, aa, bb);
    lemma_fx_mul_bound(a.m01 as int, b.m13 as int, aa, bb);
    lemma_fx_mul_bound(a.m02 as int, b.m23 as int, aa, bb);
    lemma_fx_mul_bound(a.m03 as int, b.m33 as int, aa, bb);
    lemma_fx_mul_bound(a.m10 as int, b.m00 as int, aa, bb);
    lemma_fx_mul_bound(a.m11 as int, b.m10 as int, aa, bb);
    lemma_fx_mul_bound(a.m12 as int, b.m20 as int, aa, bb);
    lemma_fx_mul_bound(a.m13 as int, b.m30 as int, aa, bb);
    lemma_fx_mul_bound(a.m10 as int, b.m01 as int, aa, bb);
    lemma_fx_mul_bound(a.m11 as int, b.m11 as int, aa, bb);
    lemma_fx_mul_bound(a.m12 as int, b.m21 as int, aa, bb);
    lemma_fx_mul_bound(a.m13 as int, b.m31 as int, aa, bb);
    lemma_fx_mul_bound(a.m10 as int, b.m02 as int, aa, bb);
    lemma_fx_mul_bound(a.m11 as int, b.m12 as int, aa, bb);
    lemma_fx_mul_bound(a.m12 as int, b.m22 as int, aa, bb);
    lemma_fx_mul_bound(a.m13 as int, b.m32 as int, aa, bb);
    lemma_fx_mul_bound(a.m10 as int, b.m03 as int, aa, bb);
    lemma_fx_mul_bound(a.m11 as int, b.m13 as int, aa, bb);
    lemma_fx_mul_bound(a.m12 as int, b.m23 as int, aa, bb);
    lemma_fx_mul_bound(a.m13 as int, b.m33 as int, aa, bb);
    lemma_fx_mul_bound(a.m20 as int, b.m00 as int, aa, bb);
    lemma_fx_mul_bound(a.m21 as int, b.m10 as int, aa, bb);
    lemma_fx_mul_bound(a.m22 as int, b.m20 as int, aa, bb);
    lemma_fx_mul_bound(a.m23 as int, b.m30 as int, aa, bb);
    lemma_fx_mul_bound(a.m20 as int, b.m01 as int, aa, bb);
    lemma_fx_mul_bound(a.m21 as int, b.m11 as int, aa, bb);
    lemma_fx_mul_bound(a.m22 as int, b.m21 as int, aa, bb);
    lemma_fx_mul_bound(a.m23 as int, b.m31 as int, aa, bb);
    lemma_fx_mul_bound(a.m20 as int, b.m02 as int, aa, bb);
    lemma_fx_mul_bound(a.m21 as int, b.m12 as int, aa, bb);
    lemma_fx_mul_bound(a.m22 as int, b.m22 as int, aa, bb);
    lemma_fx_mul_bound(a.m23 as int, b.m32 as int, aa, bb);
    lemma_fx_mul_bound(a.m20 as int, b.m03 as int, aa, bb);
    lemma_fx_mul_bound(a.m21 as int, b.m13 as int, aa, bb);
    lemma_fx_mul_bound(a.m22 as int, b.m23 as int, aa, bb);
    lemma_fx_mul_bound(a.m23 as int, b.m33 as int, aa, bb);
    lemma_fx_mul_bound(a.m30 as int, b.m00 as int, aa, bb);
    lemma_fx_mul_bound(a.m31 as int, b.m10 as int, aa, bb);
    lemma_fx_mul_bound(a.m32 as int, b.m20 as int, aa, bb);
    lemma_fx_mul_bound(a.m33 as int, b.m30 as int, aa, bb);
    lemma_fx_mul_bound(a.m30 as int, b.m01 as int, aa, bb);
    lemma_fx_mul_bound(a.m31 as int, b.m11 as int, aa, bb);
    lemma_fx_mul_bound(a.m32 as int, b.m21 as int, aa, bb);
    lemma_fx_mul_bound(a.m33 as int, b.m31 as int, aa, bb);
    lemma_fx_mul_bound(a.m30 as int, b.m02 as int, aa, bb);
    lemma_fx_mul_bound(a.m31 as int, b.m12 as int, aa, bb);
    lemma_fx_mul_bound(a.m32 as int, b.m22 as int, aa, bb);
    lemma_fx_mul_bound(a.m33 as int, b.m32 as int, aa, bb);
    lemma_fx_mul_bound(a.m30 as int, b.m03 as int, aa, bb);
    lemma_fx_mul_bound(a.m31 as int, b.m13 as int, aa, bb);
    lemma_fx_mul_bound(a.m32 as int, b.m23 as int, aa, bb);
    lemma_fx_mul_bound(a.m33 as int, b.m33 as int, aa, bb);
}

} // verus!

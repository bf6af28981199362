//! Fixed-point scalars: `i64` values carrying 12 fractional bits.
//!
//! All camera arithmetic happens on these scalars, so every operation has an
//! exact mathematical model (`fx_mul_s`, `fx_div_s`, ...) that the contracts
//! of the camera and the render session are stated over.

use vstd::prelude::*;

verus! {

/// The fixed-point scale: the representation of 1.0.
pub const ONE: i64 = 4096;

/// Largest magnitude accepted by `fx_mul`: products of two such operands
/// stay inside `i64`.
pub const FX_LIM: i64 = 0x7fff_ffff;

/// Largest magnitude accepted by `fx_div` for the dividend.
pub const FX_DIV_LIM: i64 = 0x4_0000_0000_0000;

/// Magnitude of a mathematical integer.
pub open spec fn sabs(a: int) -> int {
    if a >= 0 {
        a
    } else {
        -a
    }
}

/// Scale a double-width product back down, rounding toward zero.
pub open spec fn fx_scale_s(p: int) -> int {
    if p >= 0 {
        p / (ONE as int)
    } else {
        -((-p) / (ONE as int))
    }
}

/// Fixed-point product, rounding toward zero.
pub open spec fn fx_mul_s(a: int, b: int) -> int {
    fx_scale_s(a * b)
}

/// Fixed-point quotient for a positive divisor, rounding toward zero.
pub open spec fn fx_div_s(a: int, b: int) -> int {
    if a >= 0 {
        (a * (ONE as int)) / b
    } else {
        -(((-a) * (ONE as int)) / b)
    }
}

/// Clamp `v` into `[-lim, lim]`.
pub open spec fn clamp_s(v: int, lim: int) -> int {
    if v > lim {
        lim
    } else if v < -lim {
        -lim
    } else {
        v
    }
}

/// Fixed-point multiplication.
pub fn fx_mul(a: i64, b: i64) -> (r: i64)
    requires
        sabs(a as int) <= FX_LIM as int,
        sabs(b as int) <= FX_LIM as int,
    ensures
        r == fx_mul_s(a as int, b as int),
{
    proof {
        assert(-0x3fff_ffff_0000_0001 <= (a as int) * (b as int) <= 0x3fff_ffff_0000_0001)
            by (nonlinear_arith)
            requires
                sabs(a as int) <= 0x7fff_ffff,
                sabs(b as int) <= 0x7fff_ffff,
        ;
    }
    let p: i64 = a * b;
    let m: u64 = if p >= 0 {
        p as u64
    } else {
        (-p) as u64
    };
    let q: u64 = m / 4096;
    if p >= 0 {
        q as i64
    } else {
        -(q as i64)
    }
}

/// Fixed-point division by a positive divisor.
pub fn fx_div(a: i64, b: i64) -> (r: i64)
    requires
        sabs(a as int) <= FX_DIV_LIM as int,
        1 <= b,
    ensures
        r == fx_div_s(a as int, b as int),
{
    let m: u64 = if a >= 0 {
        a as u64
    } else {
        (-a) as u64
    };
    let n: u64 = m * 4096;
    let q: u64 = n / (b as u64);
    proof {
        assert(n / (b as u64) <= n) by (nonlinear_arith)
            requires
                1 <= b as u64,
        ;
    }
    let qi: i64 = q as i64;
    if a >= 0 {
        qi
    } else {
        -qi
    }
}

/// Truncating division of a nonnegative value by a positive one.
pub fn div_pos(a: i64, b: i64) -> (r: i64)
    requires
        0 <= a,
        1 <= b,
    ensures
        r == (a as int) / (b as int),
{
    proof {
        assert((a as u64) / (b as u64) <= a as u64) by (nonlinear_arith)
            requires
                1 <= b as u64,
        ;
    }
    ((a as u64) / (b as u64)) as i64
}

/// Clamp into `[-lim, lim]`.
pub fn clamp(v: i64, lim: i64) -> (r: i64)
    requires
        0 <= lim,
    ensures
        r == clamp_s(v as int, lim as int),
{
    if v > lim {
        lim
    } else if v < -lim {
        -lim
    } else {
        v
    }
}

/// The magnitude of a fixed-point product is bounded by the product of the
/// operand bounds, scaled down.
pub proof fn lemma_fx_mul_bound(a: int, b: int, aa: int, bb: int)
    requires
        sabs(a) <= aa,
        sabs(b) <= bb,
    ensures
        sabs(fx_mul_s(a, b)) <= (aa * bb) / (ONE as int),
{
    let o = ONE as int;
    let p = a * b;
    assert(-aa <= a <= aa && -bb <= b <= bb);
    assert(-(aa * bb) <= p <= aa * bb) by (nonlinear_arith)
        requires
            -aa <= a <= aa,
            -bb <= b <= bb,
            p == a * b,
    ;
    assert(sabs(p) <= aa * bb);
    if p >= 0 {
        vstd::arithmetic::div_mod::lemma_div_pos_is_pos(p, o);
    } else {
        vstd::arithmetic::div_mod::lemma_div_pos_is_pos(-p, o);
    }
    assert(sabs(fx_scale_s(p)) == sabs(p) / o);
    vstd::arithmetic::div_mod::lemma_div_is_ordered(sabs(p), aa * bb, o);
}

/// The magnitude of a fixed-point quotient is bounded by the scaled dividend
/// bound over the smallest divisor.
pub proof fn lemma_fx_div_bound(a: int, b: int, aa: int, bmin: int)
    requires
        sabs(a) <= aa,
        1 <= bmin <= b,
    ensures
        sabs(fx_div_s(a, b)) <= (aa * (ONE as int)) / bmin,
{
    let o = ONE as int;
    vstd::arithmetic::mul::lemma_mul_nonnegative(sabs(a), o);
    vstd::arithmetic::div_mod::lemma_div_pos_is_pos(sabs(a) * o, b);
    assert(sabs(a) * o == if a >= 0 {
        a * o
    } else {
        (-a) * o
    });
    assert(sabs(fx_div_s(a, b)) == sabs(a) * o / b);
    vstd::arithmetic::mul::lemma_mul_inequality(sabs(a), aa, o);
    vstd::arithmetic::div_mod::lemma_div_is_ordered(sabs(a) * o, aa * o, b);
    vstd::arithmetic::mul::lemma_mul_nonnegative(aa, o);
    vstd::arithmetic::div_mod::lemma_div_is_ordered_by_denominator(aa * o, bmin, b);
}

} // verus!

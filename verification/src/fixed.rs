//! Fixed-point arithmetic: multiplication of two raw fixed-point values
//! with the product scaled back down by `FP_ONE`, truncating toward zero.

use vstd::prelude::*;

use crate::FP_ONE;

verus! {

/// Quotient of `p` by `FP_ONE`, truncated toward zero (the rounding that
/// `i64` division performs).
pub open spec fn spec_scale_down(p: int) -> int {
    if p >= 0 {
        p / (FP_ONE as int)
    } else {
        -((-p) / (FP_ONE as int))
    }
}

/// Product of two raw fixed-point values, scaled back to fixed point.
pub open spec fn spec_fx_mul(a: int, b: int) -> int {
    spec_scale_down(a * b)
}

/// The scaled-down quotient keeps the magnitude bound of the dividend.
pub proof fn lemma_scale_down_bound(p: int, bound: int)
    requires
        -bound <= p <= bound,
        0 <= bound,
    ensures
        -bound <= spec_scale_down(p) <= bound,
        p >= 0 ==> 0 <= spec_scale_down(p),
        p <= 0 ==> spec_scale_down(p) <= 0,
{
    if p >= 0 {
        vstd::arithmetic::div_mod::lemma_div_pos_is_pos(p, FP_ONE as int);
        vstd::arithmetic::div_mod::lemma_div_nonincreasing(p, FP_ONE as int);
    } else {
        vstd::arithmetic::div_mod::lemma_div_pos_is_pos(-p, FP_ONE as int);
        vstd::arithmetic::div_mod::lemma_div_nonincreasing(-p, FP_ONE as int);
    }
}

/// A dividend within `FP_ONE * b` scales down to within `b`.
pub proof fn lemma_scale_down_quot(p: int, b: int)
    requires
        -(FP_ONE * b) <= p <= FP_ONE * b,
        0 <= b,
    ensures
        -b <= spec_scale_down(p) <= b,
{
    vstd::arithmetic::div_mod::lemma_div_multiples_vanish(b, FP_ONE as int);
    if p >= 0 {
        vstd::arithmetic::div_mod::lemma_div_pos_is_pos(p, FP_ONE as int);
        vstd::arithmetic::div_mod::lemma_div_is_ordered(p, FP_ONE * b, FP_ONE as int);
    } else {
        vstd::arithmetic::div_mod::lemma_div_pos_is_pos(-p, FP_ONE as int);
        vstd::arithmetic::div_mod::lemma_div_is_ordered(-p, FP_ONE * b, FP_ONE as int);
    }
}

/// A fixed-point product of factors within `ab` and `FP_ONE * bb` stays
/// within `ab * bb`.
pub proof fn lemma_fx_mul_quot(a: int, b: int, ab: int, bb: int)
    requires
        -ab <= a <= ab,
        -(FP_ONE * bb) <= b <= FP_ONE * bb,
        0 <= ab,
        0 <= bb,
    ensures
        -(ab * bb) <= spec_fx_mul(a, b) <= ab * bb,
{
    lemma_mul_magnitude(a, b, ab, FP_ONE * bb);
    assert(ab * (FP_ONE * bb) == FP_ONE * (ab * bb)) by (nonlinear_arith);
    lemma_scale_down_quot(a * b, ab * bb);
}

/// Each component of a vector whose squared length is `FP_ONE * FP_ONE`
/// has magnitude at most `FP_ONE`.
pub proof fn lemma_unit_component_bound(x: int, y: int)
    requires
        x * x + y * y == FP_ONE * FP_ONE,
    ensures
        -FP_ONE <= x <= FP_ONE,
        -FP_ONE <= y <= FP_ONE,
{
    assert(-FP_ONE <= x <= FP_ONE && -FP_ONE <= y <= FP_ONE) by (nonlinear_arith)
        requires
            x * x + y * y == FP_ONE * FP_ONE,
    ;
}

/// Magnitude bound for a product of bounded factors.
pub proof fn lemma_mul_magnitude(a: int, b: int, ab: int, bb: int)
    requires
        -ab <= a <= ab,
        -bb <= b <= bb,
    ensures
        -(ab * bb) <= a * b <= ab * bb,
{
    assert(-(ab * bb) <= a * b <= ab * bb) by (nonlinear_arith)
        requires
            -ab <= a <= ab,
            -bb <= b <= bb,
    ;
}

/// Fixed-point multiplication: `(a * b) / FP_ONE`, truncating toward zero.
pub fn fx_mul(a: i64, b: i64) -> (r: i64)
    requires
        -0x7fff_ffff_ffff_ffff <= a * b <= 0x7fff_ffff_ffff_ffff,
    ensures
        r == spec_fx_mul(a as int, b as int),
{
    let p: i64 = a * b;
    if p >= 0 {
        p / FP_ONE
    } else {
        -((-p) / FP_ONE)
    }
}

} // verus!

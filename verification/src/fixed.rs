//! Signed 64-bit fixed-point scalars with 32 fractional bits.
//!
//! A scalar `a: i64` stands for the real number `a / 2^32`. Sums, products
//! and quotients saturate at the `i64` bounds, so every operation is total;
//! the saturation bounds play the role that the infinities play in a
//! floating-point representation. Division by zero likewise saturates
//! toward the sign of the numerator.

use vstd::arithmetic::div_mod::lemma_div_nonincreasing;
use vstd::arithmetic::div_mod::lemma_div_pos_is_pos;
use vstd::prelude::*;

verus! {

/// The fixed-point representation of 1: one whole unit, `2^32`.
pub const FX_ONE: i64 = 4294967296;

/// Saturate an unbounded integer into the `i64` range.
pub open spec fn clip(x: int) -> int {
    if x > i64::MAX {
        i64::MAX as int
    } else if x < i64::MIN {
        i64::MIN as int
    } else {
        x
    }
}

/// Division truncating toward zero, as machine division does; `b != 0` is
/// the caller's concern (the value is unspecified otherwise).
pub open spec fn tdiv(a: int, b: int) -> int {
    if a == 0 {
        0
    } else if a > 0 && b > 0 {
        a / b
    } else if a < 0 && b < 0 {
        (a * -1) / (b * -1)
    } else if a < 0 {
        ((a * -1) / b) * -1
    } else {
        (a / (b * -1)) * -1
    }
}

/// Saturating fixed-point sum.
pub open spec fn fxadd(a: i64, b: i64) -> i64 {
    clip(a + b) as i64
}

/// Saturating fixed-point difference.
pub open spec fn fxsub(a: i64, b: i64) -> i64 {
    clip(a - b) as i64
}

/// Saturating fixed-point negation.
pub open spec fn fxneg(a: i64) -> i64 {
    clip(-a) as i64
}

/// Saturating fixed-point product: the whole product carries `64` fractional
/// bits, so it is scaled back down by `2^32`, truncating toward zero.
pub open spec fn fxmul(a: i64, b: i64) -> i64 {
    clip(tdiv(a * b, FX_ONE as int)) as i64
}

/// Saturating fixed-point quotient. A zero divisor saturates toward the
/// sign of the numerator, standing in for the infinities of a
/// floating-point division by zero.
pub open spec fn fxdiv(a: i64, b: i64) -> i64 {
    if b == 0 {
        if a > 0 {
            i64::MAX
        } else if a < 0 {
            i64::MIN
        } else {
            0
        }
    } else {
        clip(tdiv(a * (FX_ONE as int), b as int)) as i64
    }
}

/// Fixed-point scalar divided by a small plain integer `k >= 1` (an exact
/// weight of the integrator, not a fixed-point value).
pub open spec fn fxdivi(a: i64, k: i64) -> i64 {
    if k < 1 {
        0
    } else {
        tdiv(a as int, k as int) as i64
    }
}

/// Truncating division stays within the magnitude of the dividend.
proof fn lemma_tdiv_magnitude(a: int, b: int)
    requires
        b != 0,
    ensures
        a >= 0 ==> -a <= tdiv(a, b) <= a,
        a < 0 ==> a <= tdiv(a, b) <= -a,
{
    if a == 0 {
    } else if a > 0 && b > 0 {
        lemma_div_pos_is_pos(a, b);
        lemma_div_nonincreasing(a, b);
    } else if a < 0 && b < 0 {
        lemma_div_pos_is_pos(a * -1, b * -1);
        lemma_div_nonincreasing(a * -1, b * -1);
    } else if a < 0 {
        lemma_div_pos_is_pos(a * -1, b);
        lemma_div_nonincreasing(a * -1, b);
    } else {
        lemma_div_pos_is_pos(a, b * -1);
        lemma_div_nonincreasing(a, b * -1);
    }
}

/// Saturating fixed-point sum.
pub fn fx_add(a: i64, b: i64) -> (r: i64)
    ensures
        r == fxadd(a, b),
{
    let s: i128 = (a as i128) + (b as i128);
    if s > i64::MAX as i128 {
        i64::MAX
    } else if s < i64::MIN as i128 {
        i64::MIN
    } else {
        s as i64
    }
}

/// Saturating fixed-point difference.
pub fn fx_sub(a: i64, b: i64) -> (r: i64)
    ensures
        r == fxsub(a, b),
{
    let s: i128 = (a as i128) - (b as i128);
    if s > i64::MAX as i128 {
        i64::MAX
    } else if s < i64::MIN as i128 {
        i64::MIN
    } else {
        s as i64
    }
}

/// Saturating fixed-point negation.
pub fn fx_neg(a: i64) -> (r: i64)
    ensures
        r == fxneg(a),
{
    let s: i128 = -(a as i128);
    if s > i64::MAX as i128 {
        i64::MAX
    } else {
        s as i64
    }
}

/// Saturating fixed-point product.
pub fn fx_mul(a: i64, b: i64) -> (r: i64)
    ensures
        r == fxmul(a, b),
{
    proof {
        assert((a as int) * (b as int) <= 0x4000_0000_0000_0000_0000_0000_0000_0000int
            && (a as int) * (b as int) >= -0x4000_0000_0000_0000_0000_0000_0000_0000int)
            by (nonlinear_arith)
            requires
                -0x8000_0000_0000_0000int <= a as int <= 0x7fff_ffff_ffff_ffffint,
                -0x8000_0000_0000_0000int <= b as int <= 0x7fff_ffff_ffff_ffffint,
        ;
    }
    let p: i128 = (a as i128) * (b as i128);
    proof {
        lemma_tdiv_magnitude(p as int, FX_ONE as int);
    }
    let q: i128 = p.checked_div(FX_ONE as i128).unwrap();
    if q > i64::MAX as i128 {
        i64::MAX
    } else if q < i64::MIN as i128 {
        i64::MIN
    } else {
        q as i64
    }
}

/// Saturating fixed-point quotient; a zero divisor saturates toward the
/// sign of the numerator.
pub fn fx_div(a: i64, b: i64) -> (r: i64)
    ensures
        r == fxdiv(a, b),
{
    if b == 0 {
        if a > 0 {
            i64::MAX
        } else if a < 0 {
            i64::MIN
        } else {
            0
        }
    } else {
        proof {
            assert((a as int) * (FX_ONE as int) <= 0x4000_0000_0000_0000_0000_0000_0000_0000int
                && (a as int) * (FX_ONE as int) >= -0x4000_0000_0000_0000_0000_0000_0000_0000int)
                by (nonlinear_arith)
                requires
                    -0x8000_0000_0000_0000int <= a as int <= 0x7fff_ffff_ffff_ffffint,
            ;
        }
        let p: i128 = (a as i128) * (FX_ONE as i128);
        proof {
            lemma_tdiv_magnitude(p as int, b as int);
        }
        let q: i128 = p.checked_div(b as i128).unwrap();
        if q > i64::MAX as i128 {
            i64::MAX
        } else if q < i64::MIN as i128 {
            i64::MIN
        } else {
            q as i64
        }
    }
}

/// Fixed-point scalar divided by a small plain integer weight `k >= 1`.
pub fn fx_divi(a: i64, k: i64) -> (r: i64)
    requires
        k >= 1,
    ensures
        r == fxdivi(a, k),
{
    proof {
        lemma_tdiv_magnitude(a as int, k as int);
    }
    a.checked_div(k).unwrap()
}

} // verus!

//! Fixed-point sine and cosine.
//!
//! An angle is a fixed-point scalar in radians. The argument is first
//! reduced into one turn `[0, 2*pi)`, folded onto the first quarter turn by
//! the symmetries of the sine, and the sine of the folded argument is a
//! truncated Taylor polynomial in Horner form. The contracts state the
//! computed value exactly, as a function of these fixed-point steps; how
//! close it comes to the real sine is a matter of numerical accuracy, not
//! of the contracts.

use crate::fixed::FX_ONE;
use crate::fixed::fx_divi;
use crate::fixed::fx_mul;
use crate::fixed::fx_neg;
use crate::fixed::fx_sub;
use crate::fixed::fxdivi;
use crate::fixed::fxmul;
use crate::fixed::fxneg;
use crate::fixed::fxsub;
use vstd::arithmetic::div_mod::lemma_mod_division_less_than_divisor;
use vstd::prelude::*;

verus! {

/// `pi` in fixed point, rounded to the nearest representable scalar.
pub const FX_PI: i64 = 13493037705;

/// `pi / 2` in fixed point, rounded to the nearest representable scalar.
pub const FX_HALF_PI: i64 = 6746518852;

/// `2 * pi` in fixed point, rounded to the nearest representable scalar.
pub const FX_TWO_PI: i64 = 26986075409;

/// The sine polynomial on a folded argument `s` in `[0, pi/2]`: the Taylor
/// series through the eleventh power, evaluated innermost first.
pub open spec fn sin_poly(s: i64) -> i64 {
    let x2 = fxmul(s, s);
    let a5 = fxsub(FX_ONE, fxdivi(x2, 110));
    let a4 = fxsub(FX_ONE, fxdivi(fxmul(x2, a5), 72));
    let a3 = fxsub(FX_ONE, fxdivi(fxmul(x2, a4), 42));
    let a2 = fxsub(FX_ONE, fxdivi(fxmul(x2, a3), 20));
    let a1 = fxsub(FX_ONE, fxdivi(fxmul(x2, a2), 6));
    fxmul(s, a1)
}

/// An angle reduced into one turn: the Euclidean remainder by `2*pi`.
pub open spec fn reduce_turn(x: i64) -> i64 {
    ((x as int) % (FX_TWO_PI as int)) as i64
}

/// The sine on a reduced angle `r` in `[0, 2*pi)`, folded onto the first
/// quarter turn by the symmetries of the sine.
pub open spec fn sin_reduced(r: i64) -> i64 {
    if r <= FX_HALF_PI {
        sin_poly(r)
    } else if r <= FX_PI {
        sin_poly(fxsub(FX_PI, r))
    } else if r <= FX_PI + FX_HALF_PI {
        fxneg(sin_poly(fxsub(r, FX_PI)))
    } else {
        fxneg(sin_poly(fxsub(FX_TWO_PI, r)))
    }
}

/// The fixed-point sine of any angle.
pub open spec fn fxsin(x: i64) -> i64 {
    sin_reduced(reduce_turn(x))
}

/// The fixed-point cosine: the sine a quarter turn ahead, with the shifted
/// argument brought back into one turn.
pub open spec fn fxcos(x: i64) -> i64 {
    let r = reduce_turn(x);
    if r < FX_TWO_PI - FX_HALF_PI {
        sin_reduced((r + FX_HALF_PI) as i64)
    } else {
        sin_reduced((r - (FX_TWO_PI - FX_HALF_PI)) as i64)
    }
}

/// Reduce an angle into one turn.
fn fx_reduce_turn(x: i64) -> (r: i64)
    ensures
        r == reduce_turn(x),
        0 <= r < FX_TWO_PI,
{
    proof {
        lemma_mod_division_less_than_divisor(x as int, FX_TWO_PI as int);
    }
    x.checked_rem_euclid(FX_TWO_PI).unwrap()
}

/// The sine polynomial on a folded argument.
fn fx_sin_poly(s: i64) -> (r: i64)
    ensures
        r == sin_poly(s),
{
    let x2 = fx_mul(s, s);
    let a5 = fx_sub(FX_ONE, fx_divi(x2, 110));
    let a4 = fx_sub(FX_ONE, fx_divi(fx_mul(x2, a5), 72));
    let a3 = fx_sub(FX_ONE, fx_divi(fx_mul(x2, a4), 42));
    let a2 = fx_sub(FX_ONE, fx_divi(fx_mul(x2, a3), 20));
    let a1 = fx_sub(FX_ONE, fx_divi(fx_mul(x2, a2), 6));
    fx_mul(s, a1)
}

/// The sine on a reduced angle.
fn fx_sin_reduced(r: i64) -> (v: i64)
    requires
        0 <= r < FX_TWO_PI + FX_HALF_PI,
    ensures
        v == sin_reduced(r),
{
    if r <= FX_HALF_PI {
        fx_sin_poly(r)
    } else if r <= FX_PI {
        fx_sin_poly(fx_sub(FX_PI, r))
    } else if r <= FX_PI + FX_HALF_PI {
        fx_neg(fx_sin_poly(fx_sub(r, FX_PI)))
    } else {
        fx_neg(fx_sin_poly(fx_sub(FX_TWO_PI, r)))
    }
}

/// The fixed-point sine of any angle.
pub fn fx_sin(x: i64) -> (v: i64)
    ensures
        v == fxsin(x),
{
    let r = fx_reduce_turn(x);
    fx_sin_reduced(r)
}

/// The fixed-point cosine of any angle.
pub fn fx_cos(x: i64) -> (v: i64)
    ensures
        v == fxcos(x),
{
    let r = fx_reduce_turn(x);
    if r < FX_TWO_PI - FX_HALF_PI {
        fx_sin_reduced(r + FX_HALF_PI)
    } else {
        fx_sin_reduced(r - (FX_TWO_PI - FX_HALF_PI))
    }
}

/// The sine of the zero angle is exactly zero: every term of the folded
/// polynomial carries the zero argument as a factor.
pub proof fn lemma_sin_zero()
    ensures
        fxsin(0) == 0,
{
    assert(reduce_turn(0) == 0) by {
        lemma_mod_division_less_than_divisor(0, FX_TWO_PI as int);
        assert(0int % (FX_TWO_PI as int) < FX_TWO_PI as int);
        assert(0int % (FX_TWO_PI as int) == 0) by {
            vstd::arithmetic::div_mod::lemma_small_mod(0, FX_TWO_PI as nat);
        }
    }
    assert(fxmul(0, 0) == 0);
    assert(sin_poly(0) == 0);
}

} // verus!

use double_pendulum::fixed::fx_add;
use double_pendulum::fixed::fx_div;
use double_pendulum::fixed::fx_mul;
use double_pendulum::fixed::fx_neg;
use double_pendulum::fixed::fx_sub;
use double_pendulum::trig::fx_cos;
use double_pendulum::trig::fx_sin;

/// A floating-point value as a 32-fractional-bit fixed-point scalar.
fn fx(x: f64) -> i64 {
    (x * 4294967296.0).round() as i64
}

#[test]
fn exact_products_and_quotients() {
    assert_eq!(fx_mul(fx(1.5), fx(2.0)), fx(3.0));
    assert_eq!(fx_mul(fx(-1.5), fx(2.0)), fx(-3.0));
    assert_eq!(fx_div(fx(3.0), fx(2.0)), fx(1.5));
    assert_eq!(fx_div(fx(-3.0), fx(2.0)), fx(-1.5));
    assert_eq!(fx_add(fx(1.25), fx(2.5)), fx(3.75));
    assert_eq!(fx_sub(fx(1.25), fx(2.5)), fx(-1.25));
    assert_eq!(fx_neg(fx(2.5)), fx(-2.5));
}

#[test]
fn quotients_truncate_toward_zero() {
    // -1/3 rounds toward zero, not toward minus infinity.
    assert_eq!(fx_div(fx(-1.0), fx(3.0)), -1431655765);
    assert_eq!(fx_div(fx(1.0), fx(3.0)), 1431655765);
    assert_eq!(fx_mul(-4294967297, 1), -1);
}

#[test]
fn sums_and_products_saturate() {
    assert_eq!(fx_add(i64::MAX, 1), i64::MAX);
    assert_eq!(fx_add(i64::MIN, -1), i64::MIN);
    assert_eq!(fx_sub(i64::MIN, 1), i64::MIN);
    assert_eq!(fx_neg(i64::MIN), i64::MAX);
    assert_eq!(fx_mul(i64::MAX, i64::MAX), i64::MAX);
    assert_eq!(fx_mul(i64::MAX, -i64::MAX), i64::MIN);
}

#[test]
fn division_by_zero_saturates_by_sign() {
    assert_eq!(fx_div(fx(1.0), 0), i64::MAX);
    assert_eq!(fx_div(fx(-1.0), 0), i64::MIN);
    assert_eq!(fx_div(0, 0), 0);
}

#[test]
fn sine_and_cosine_fixtures() {
    assert_eq!(fx_sin(0), 0);
    assert_eq!(fx_sin(fx(0.5)), 2059117009);
    assert_eq!(fx_sin(fx(-0.5)), -2059117009);
    assert_eq!(fx_cos(0), 4294967055);
    // One full turn past the argument: the reduction wraps it back.
    assert_eq!(fx_sin(fx(7.0)), 2821735956);
    let x = 0.5_f64;
    assert!((fx_sin(fx(x)) as f64 / 4294967296.0 - x.sin()).abs() < 1e-6);
    assert!((fx_cos(fx(x)) as f64 / 4294967296.0 - x.cos()).abs() < 1e-6);
}

#[test]
fn sine_is_odd_under_reduction() {
    // Exactly odd while the folded argument stays on the first quarter
    // turn; beyond it, the fold boundaries sit one unit apart on the two
    // sides of zero, so oddness holds to within one unit.
    for i in 1..8 {
        let x = fx(0.21 * i as f64);
        assert_eq!(fx_sin(-x), -fx_sin(x));
    }
    for i in 8..100 {
        let x = fx(0.21 * i as f64);
        assert!((fx_sin(-x) + fx_sin(x)).abs() <= 1);
    }
}

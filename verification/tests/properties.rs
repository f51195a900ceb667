use double_pendulum::DoublePendulum;

/// A floating-point value as a 32-fractional-bit fixed-point scalar.
fn fx(x: f64) -> i64 {
    (x * 4294967296.0).round() as i64
}

/// A fixed-point scalar back as a floating-point value.
fn unfx(v: i64) -> f64 {
    v as f64 / 4294967296.0
}

/// Total mechanical energy of the state, from the standard kinetic and
/// potential terms of the double pendulum.
fn energy(p: &DoublePendulum, l1: f64, l2: f64, m1: f64, m2: f64) -> f64 {
    let g = 9.81;
    let a = unfx(p.alpha());
    let b = unfx(p.beta());
    let ad = unfx(p.alpha_dot());
    let bd = unfx(p.beta_dot());
    let kinetic = 0.5 * (m1 + m2) * l1 * l1 * ad * ad + 0.5 * m2 * l2 * l2 * bd * bd
        + m2 * l1 * l2 * ad * bd * (a - b).cos();
    let potential = -(m1 + m2) * g * l1 * a.cos() - m2 * g * l2 * b.cos();
    kinetic + potential
}

#[test]
fn energy_drift_is_bounded_at_small_amplitude() {
    // A conservative, small-amplitude configuration: over ten thousand
    // steps of 0.01 s the total mechanical energy stays within one percent
    // of its initial value.
    let mut p = DoublePendulum::new(
        fx(0.05),
        fx(0.05),
        0,
        0,
        fx(1.0),
        fx(1.0),
        fx(1.0),
        fx(1.0),
        fx(0.01),
    )
    .unwrap();
    let e0 = energy(&p, 1.0, 1.0, 1.0, 1.0);
    let mut worst = 0.0_f64;
    for _ in 0..10000 {
        p.step();
        let drift = (energy(&p, 1.0, 1.0, 1.0, 1.0) - e0).abs();
        if drift > worst {
            worst = drift;
        }
    }
    assert!(worst < 0.01 * e0.abs());
}

#[test]
fn small_angle_period_matches_linearized_mode() {
    // For very small angles and equal masses and lengths the equations of
    // motion linearize to alpha_ddot = w0^2 * (-2*alpha + beta) and
    // beta_ddot = w0^2 * (alpha - beta) with w0^2 = g / l (the second-rod
    // equation carries g*sin(alpha)). The slow normal mode has
    // beta = (2 + mu) * alpha with mu = (-3 + sqrt(5)) / 2 and angular
    // frequency sqrt(-mu * g / l). Starting on that mode at rest, the
    // simulated period, read off the zero crossings of alpha, matches the
    // mode's period within a few percent.
    let g = 9.81_f64;
    let mu = (-3.0 + 5.0_f64.sqrt()) / 2.0;
    let ratio = 2.0 + mu;
    let expected_period = 2.0 * std::f64::consts::PI / (-mu * g).sqrt();

    let h = 0.001_f64;
    let mut p = DoublePendulum::new(
        fx(0.01),
        fx(0.01 * ratio),
        0,
        0,
        fx(1.0),
        fx(1.0),
        fx(1.0),
        fx(1.0),
        fx(h),
    )
    .unwrap();
    let mut crossings: Vec<f64> = Vec::new();
    let mut prev = p.alpha();
    let mut t = 0.0_f64;
    for _ in 0..8000 {
        p.step();
        t += h;
        if (prev > 0) != (p.alpha() > 0) && crossings.len() < 2 {
            crossings.push(t);
        }
        prev = p.alpha();
    }
    assert_eq!(crossings.len(), 2);
    let period = 2.0 * (crossings[1] - crossings[0]);
    assert!((period - expected_period).abs() / expected_period < 0.03);
}

#[test]
fn bobs_stay_on_their_rod_circles() {
    // Position consistency: x1^2 + y1^2 tracks l1^2 and the second bob's
    // offset from the first tracks l2^2, at every reachable state, up to
    // the accuracy of the polynomial sine.
    let (l1, l2) = (1.5_f64, 0.8_f64);
    let mut p = DoublePendulum::new(
        fx(1.2),
        fx(-0.7),
        fx(0.3),
        0,
        fx(l1),
        fx(l2),
        fx(1.0),
        fx(2.0),
        fx(0.01),
    )
    .unwrap();
    for _ in 0..500 {
        p.step();
        let x1 = unfx(p.x1());
        let y1 = unfx(p.y1());
        let x2 = unfx(p.x2());
        let y2 = unfx(p.y2());
        let r1 = x1 * x1 + y1 * y1;
        let r2 = (x2 - x1) * (x2 - x1) + (y2 - y1) * (y2 - y1);
        assert!((r1 - l1 * l1).abs() < 1e-5);
        assert!((r2 - l2 * l2).abs() < 1e-5);
    }
}

#[test]
fn angles_may_leave_the_construction_range() {
    // The construction bound on the angles is a sanity check, not an
    // invariant: a fast-spinning pendulum winds its angle past pi, and
    // stepping neither clamps nor wraps it.
    let mut p = DoublePendulum::new(
        fx(3.0),
        fx(3.0),
        fx(8.0),
        fx(8.0),
        fx(1.0),
        fx(1.0),
        fx(1.0),
        fx(1.0),
        fx(0.01),
    )
    .unwrap();
    for _ in 0..200 {
        p.step();
    }
    assert!(unfx(p.alpha()) > std::f64::consts::PI);
}

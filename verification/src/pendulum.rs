//! The double pendulum: state, dynamics and the Runge-Kutta integrator.
//!
//! A simulation instance holds the two rod angles (radians, measured from
//! the downward vertical), their angular velocities, and the physical
//! parameters: rod lengths, bob masses and the fixed timestep. All are
//! fixed-point scalars. `step` advances the state in place by one timestep
//! with the classical fourth-order Runge-Kutta rule; the accessors derive
//! the Cartesian bob positions from the current angles. Every operation's
//! contract states the computed fixed-point value exactly.

use crate::fixed::fx_add;
use crate::fixed::fx_div;
use crate::fixed::fx_mul;
use crate::fixed::fx_sub;
use crate::fixed::fxadd;
use crate::fixed::fxdiv;
use crate::fixed::fxmul;
use crate::fixed::fxsub;
use crate::trig::FX_PI;
use crate::trig::fx_cos;
use crate::trig::fx_sin;
use crate::trig::fxcos;
use crate::trig::fxsin;
use vstd::prelude::*;

verus! {

/// Gravitational acceleration, fixed at 9.81, as a fixed-point scalar.
pub const FX_G: i64 = 42133629174;

/// The scalar 2 as a fixed-point value: a weight of the integrator.
pub const FX_TWO: i64 = 8589934592;

/// The scalar 6 as a fixed-point value: the divisor of the Runge-Kutta
/// weighted average.
pub const FX_SIX: i64 = 25769803776;

/// Why a construction was rejected: the parameter at fault, and the bound
/// it broke.
#[derive(Clone, Copy, Debug, PartialEq, Eq, Structural)]
pub enum ConstructionError {
    /// The first angle lies outside `[-pi, pi]`.
    AlphaOutOfRange,
    /// The second angle lies outside `[-pi, pi]`.
    BetaOutOfRange,
    /// The first rod length is not strictly positive.
    LengthOneNotPositive,
    /// The second rod length is not strictly positive.
    LengthTwoNotPositive,
    /// The first bob mass is not strictly positive.
    MassOneNotPositive,
    /// The second bob mass is not strictly positive.
    MassTwoNotPositive,
    /// The timestep is not strictly positive.
    StepNotPositive,
}

/// A double-pendulum simulation instance: the mutable state vector
/// `(alpha, beta, alpha_dot, beta_dot)` and the immutable physical
/// parameters. The angles are bounded to `[-pi, pi]` at construction only;
/// stepping may drift them outside, which the periodic trigonometric
/// functions absorb.
#[derive(Clone, Copy, Debug)]
pub struct DoublePendulum {
    /// Angle of the first rod from the downward vertical, radians.
    pub alpha: i64,
    /// Angle of the second rod from the downward vertical, radians.
    pub beta: i64,
    /// Angular velocity of the first rod, radians per second.
    pub alpha_dot: i64,
    /// Angular velocity of the second rod, radians per second.
    pub beta_dot: i64,
    /// The two rod lengths.
    pub lengths: (i64, i64),
    /// The two bob masses.
    pub masses: (i64, i64),
    /// The fixed integration timestep, seconds.
    pub step: i64,
}

/// The result of construction: the validated instance, or the first
/// parameter check that failed, in the order the checks are made.
pub open spec fn spec_new(
    alpha: i64,
    beta: i64,
    alpha_dot: i64,
    beta_dot: i64,
    l1: i64,
    l2: i64,
    m1: i64,
    m2: i64,
    step: i64,
) -> Result<DoublePendulum, ConstructionError> {
    if alpha > FX_PI || alpha < -FX_PI {
        Err(ConstructionError::AlphaOutOfRange)
    } else if beta > FX_PI || beta < -FX_PI {
        Err(ConstructionError::BetaOutOfRange)
    } else if l1 <= 0 {
        Err(ConstructionError::LengthOneNotPositive)
    } else if l2 <= 0 {
        Err(ConstructionError::LengthTwoNotPositive)
    } else if m1 <= 0 {
        Err(ConstructionError::MassOneNotPositive)
    } else if m2 <= 0 {
        Err(ConstructionError::MassTwoNotPositive)
    } else if step <= 0 {
        Err(ConstructionError::StepNotPositive)
    } else {
        Ok(
            DoublePendulum {
                alpha,
                beta,
                alpha_dot,
                beta_dot,
                lengths: (l1, l2),
                masses: (m1, m2),
                step,
            },
        )
    }
}

/// The angular acceleration of the first rod, from the Lagrangian
/// derivation of the double pendulum, evaluated in fixed point:
/// with `delta = alpha - beta`,
/// `num = m2*g*l1*sin(beta)*cos(delta) - m2*l1^2*alpha_dot^2*sin(delta)*cos(delta)
///        - (m1+m2)*g*l1*sin(alpha) - m2*l1*l2*beta_dot^2*sin(delta)`,
/// `den = (m1+m2)*l1^2 - m2*l1^2*cos(delta)^2`, and the result `num / den`.
pub open spec fn spec_alpha_ddot(p: DoublePendulum) -> i64 {
    let l1 = p.lengths.0;
    let l2 = p.lengths.1;
    let m1 = p.masses.0;
    let m2 = p.masses.1;
    let delta = fxsub(p.alpha, p.beta);
    let t1 = fxmul(fxmul(fxmul(fxmul(m2, FX_G), l1), fxsin(p.beta)), fxcos(delta));
    let t2 = fxmul(
        fxmul(fxmul(fxmul(m2, fxmul(l1, l1)), fxmul(p.alpha_dot, p.alpha_dot)), fxsin(delta)),
        fxcos(delta),
    );
    let t3 = fxmul(fxmul(fxmul(fxadd(m1, m2), FX_G), l1), fxsin(p.alpha));
    let t4 = fxmul(fxmul(fxmul(m2, fxmul(l1, l2)), fxmul(p.beta_dot, p.beta_dot)), fxsin(delta));
    let num = fxsub(fxsub(fxsub(t1, t2), t3), t4);
    let den = fxsub(
        fxmul(fxadd(m1, m2), fxmul(l1, l1)),
        fxmul(fxmul(m2, fxmul(l1, l1)), fxmul(fxcos(delta), fxcos(delta))),
    );
    fxdiv(num, den)
}

/// The angular acceleration of the second rod, which consumes the first
/// rod's acceleration: with `delta = alpha - beta`,
/// `( l1*alpha_dot^2*sin(delta) - l1*alpha_ddot*cos(delta) - g*sin(alpha) ) / l2`.
pub open spec fn spec_beta_ddot(p: DoublePendulum) -> i64 {
    let l1 = p.lengths.0;
    let l2 = p.lengths.1;
    let delta = fxsub(p.alpha, p.beta);
    let t1 = fxmul(fxmul(l1, fxmul(p.alpha_dot, p.alpha_dot)), fxsin(delta));
    let t2 = fxmul(fxmul(l1, spec_alpha_ddot(p)), fxcos(delta));
    let t3 = fxmul(FX_G, fxsin(p.alpha));
    fxdiv(fxsub(fxsub(t1, t2), t3), l2)
}

/// The time-derivative of the state vector: the velocities move into the
/// angle slots and the accelerations into the velocity slots, with the
/// physical parameters carried along unchanged.
pub open spec fn spec_xi_dot(p: DoublePendulum) -> DoublePendulum {
    DoublePendulum {
        alpha: p.alpha_dot,
        beta: p.beta_dot,
        alpha_dot: spec_alpha_ddot(p),
        beta_dot: spec_beta_ddot(p),
        lengths: p.lengths,
        masses: p.masses,
        step: p.step,
    }
}

/// Elementwise sum of two state vectors; the parameters of the left
/// operand are copied into the result.
pub open spec fn spec_add(a: DoublePendulum, b: DoublePendulum) -> DoublePendulum {
    DoublePendulum {
        alpha: fxadd(a.alpha, b.alpha),
        beta: fxadd(a.beta, b.beta),
        alpha_dot: fxadd(a.alpha_dot, b.alpha_dot),
        beta_dot: fxadd(a.beta_dot, b.beta_dot),
        lengths: a.lengths,
        masses: a.masses,
        step: a.step,
    }
}

/// Uniform scalar multiplication of the four state components.
pub open spec fn spec_scale(a: DoublePendulum, k: i64) -> DoublePendulum {
    DoublePendulum {
        alpha: fxmul(a.alpha, k),
        beta: fxmul(a.beta, k),
        alpha_dot: fxmul(a.alpha_dot, k),
        beta_dot: fxmul(a.beta_dot, k),
        lengths: a.lengths,
        masses: a.masses,
        step: a.step,
    }
}

/// Uniform scalar division of the four state components.
pub open spec fn spec_scale_down(a: DoublePendulum, k: i64) -> DoublePendulum {
    DoublePendulum {
        alpha: fxdiv(a.alpha, k),
        beta: fxdiv(a.beta, k),
        alpha_dot: fxdiv(a.alpha_dot, k),
        beta_dot: fxdiv(a.beta_dot, k),
        lengths: a.lengths,
        masses: a.masses,
        step: a.step,
    }
}

/// One step of the classical fourth-order Runge-Kutta rule with the fixed
/// timestep `h = p.step`: four derivative samples combined with the
/// weights `(1, 2, 2, 1) / 6`, scaled by `h`, added to the state. The
/// physical parameters come through unchanged.
pub open spec fn spec_step(p: DoublePendulum) -> DoublePendulum {
    let k1 = spec_xi_dot(p);
    let k2 = spec_xi_dot(spec_add(p, spec_scale_down(spec_scale(k1, p.step), FX_TWO)));
    let k3 = spec_xi_dot(spec_add(p, spec_scale_down(spec_scale(k2, p.step), FX_TWO)));
    let k4 = spec_xi_dot(spec_add(p, spec_scale(k3, p.step)));
    let sum = spec_add(spec_add(spec_add(k1, spec_scale(k2, FX_TWO)), spec_scale(k3, FX_TWO)), k4);
    let k = spec_scale_down(spec_scale(sum, p.step), FX_SIX);
    DoublePendulum {
        alpha: fxadd(p.alpha, k.alpha),
        beta: fxadd(p.beta, k.beta),
        alpha_dot: fxadd(p.alpha_dot, k.alpha_dot),
        beta_dot: fxadd(p.beta_dot, k.beta_dot),
        lengths: p.lengths,
        masses: p.masses,
        step: p.step,
    }
}

/// Horizontal position of the first bob: `l1 * sin(alpha)`.
pub open spec fn spec_x1(p: DoublePendulum) -> i64 {
    fxmul(p.lengths.0, fxsin(p.alpha))
}

/// Vertical position of the first bob, measured downward: `l1 * cos(alpha)`.
pub open spec fn spec_y1(p: DoublePendulum) -> i64 {
    fxmul(p.lengths.0, fxcos(p.alpha))
}

/// Horizontal position of the second bob, chained from the first:
/// `x1 + l2 * sin(beta)`.
pub open spec fn spec_x2(p: DoublePendulum) -> i64 {
    fxadd(spec_x1(p), fxmul(p.lengths.1, fxsin(p.beta)))
}

/// Vertical position of the second bob, chained from the first:
/// `y1 + l2 * cos(beta)`.
pub open spec fn spec_y2(p: DoublePendulum) -> i64 {
    fxadd(spec_y1(p), fxmul(p.lengths.1, fxcos(p.beta)))
}

/// A zero factor annihilates a fixed-point product.
proof fn lemma_fxmul_zero(x: i64)
    ensures
        fxmul(0, x) == 0,
        fxmul(x, 0) == 0,
{
}

/// A zero numerator makes the fixed-point quotient zero, whatever the
/// divisor, the zero-divisor case included.
proof fn lemma_fxdiv_zero(b: i64)
    ensures
        fxdiv(0, b) == 0,
{
}

/// The state after `n` steps: `spec_step` iterated `n` times.
pub open spec fn spec_advance(p: DoublePendulum, n: nat) -> DoublePendulum
    decreases n,
{
    if n == 0 {
        p
    } else {
        spec_step(spec_advance(p, (n - 1) as nat))
    }
}

/// Determinism: the whole trajectory is a function of the initial state
/// and parameters alone, so two instances that start equal stay equal
/// after any number of steps.
pub proof fn lemma_determinism(p: DoublePendulum, q: DoublePendulum, n: nat)
    requires
        p == q,
    ensures
        spec_advance(p, n) == spec_advance(q, n),
{
}

/// The physical parameters are invariant for the lifetime of an instance:
/// no number of steps changes the lengths, the masses or the timestep.
pub proof fn lemma_parameters_invariant(p: DoublePendulum, n: nat)
    ensures
        spec_advance(p, n).lengths == p.lengths,
        spec_advance(p, n).masses == p.masses,
        spec_advance(p, n).step == p.step,
    decreases n,
{
    if n > 0 {
        lemma_parameters_invariant(p, (n - 1) as nat);
    }
}

/// At rest, every derivative sample vanishes: with both angles and both
/// angular velocities zero, one step returns the state unchanged, whatever
/// the physical parameters.
pub proof fn lemma_rest_state_step(p: DoublePendulum)
    requires
        p.alpha == 0,
        p.beta == 0,
        p.alpha_dot == 0,
        p.beta_dot == 0,
    ensures
        spec_step(p) == p,
{
    crate::trig::lemma_sin_zero();
    assert(fxsub(0, 0) == 0);
    let l1 = p.lengths.0;
    let l2 = p.lengths.1;
    let m1 = p.masses.0;
    let m2 = p.masses.1;
    let delta = fxsub(p.alpha, p.beta);
    assert(delta == 0);
    let cos_delta = fxcos(delta);
    assert(spec_alpha_ddot(p) == 0) by {
        lemma_fxmul_zero(fxmul(fxmul(m2, FX_G), l1));
        lemma_fxmul_zero(cos_delta);
        lemma_fxmul_zero(fxmul(m2, fxmul(l1, l1)));
        lemma_fxmul_zero(fxmul(fxadd(m1, m2), FX_G));
        lemma_fxmul_zero(fxmul(fxmul(fxadd(m1, m2), FX_G), l1));
        lemma_fxmul_zero(fxmul(m2, fxmul(l1, l2)));
        lemma_fxdiv_zero(
            fxsub(
                fxmul(fxadd(m1, m2), fxmul(l1, l1)),
                fxmul(fxmul(m2, fxmul(l1, l1)), fxmul(cos_delta, cos_delta)),
            ),
        );
    }
    assert(spec_beta_ddot(p) == 0) by {
        lemma_fxmul_zero(l1);
        lemma_fxmul_zero(fxmul(l1, fxmul(p.alpha_dot, p.alpha_dot)));
        lemma_fxmul_zero(fxmul(l1, spec_alpha_ddot(p)));
        lemma_fxmul_zero(cos_delta);
        lemma_fxmul_zero(FX_G);
        lemma_fxdiv_zero(l2);
    }
    let k1 = spec_xi_dot(p);
    assert(k1.alpha == 0 && k1.beta == 0 && k1.alpha_dot == 0 && k1.beta_dot == 0);
    lemma_fxmul_zero(p.step);
    lemma_fxmul_zero(FX_TWO);
    lemma_fxdiv_zero(FX_TWO);
    lemma_fxdiv_zero(FX_SIX);
    // Every intermediate evaluation point collapses back to the rest
    // state, so all four derivative samples are the one sample k1.
    assert(spec_add(p, spec_scale_down(spec_scale(k1, p.step), FX_TWO)) == p);
    assert(spec_add(p, spec_scale(k1, p.step)) == p);
    let sum = spec_add(spec_add(spec_add(k1, spec_scale(k1, FX_TWO)), spec_scale(k1, FX_TWO)), k1);
    assert(sum.alpha == 0 && sum.beta == 0 && sum.alpha_dot == 0 && sum.beta_dot == 0);
    let k = spec_scale_down(spec_scale(sum, p.step), FX_SIX);
    assert(k.alpha == 0 && k.beta == 0 && k.alpha_dot == 0 && k.beta_dot == 0);
}

/// Rest-state stability: from the rest state, stepping any number of
/// times leaves the state exactly at rest.
pub proof fn lemma_rest_state_stable(p: DoublePendulum, n: nat)
    requires
        p.alpha == 0,
        p.beta == 0,
        p.alpha_dot == 0,
        p.beta_dot == 0,
    ensures
        spec_advance(p, n) == p,
    decreases n,
{
    if n > 0 {
        lemma_rest_state_stable(p, (n - 1) as nat);
        lemma_rest_state_step(p);
    }
}

/// Position consistency, the exact part: as long as the chained sums do
/// not saturate, the second bob's position differs from the first bob's
/// exactly by the second rod's contribution `(l2*sin(beta), l2*cos(beta))`
/// — the second rod is anchored at the first bob. How close each
/// contribution comes to a point on the rod-length circle is a matter of
/// the trigonometric approximation, not of this law.
pub proof fn lemma_position_chained(p: DoublePendulum)
    requires
        i64::MIN <= spec_x1(p) + fxmul(p.lengths.1, fxsin(p.beta)) <= i64::MAX,
        i64::MIN <= spec_y1(p) + fxmul(p.lengths.1, fxcos(p.beta)) <= i64::MAX,
    ensures
        spec_x2(p) - spec_x1(p) == fxmul(p.lengths.1, fxsin(p.beta)),
        spec_y2(p) - spec_y1(p) == fxmul(p.lengths.1, fxcos(p.beta)),
{
}

impl DoublePendulum {
    /// Construct a validated simulation instance, or report the first
    /// parameter check that failed: angles must lie in `[-pi, pi]`, and
    /// lengths, masses and the timestep must be strictly positive.
    pub fn new(
        alpha: i64,
        beta: i64,
        alpha_dot: i64,
        beta_dot: i64,
        l1: i64,
        l2: i64,
        m1: i64,
        m2: i64,
        step: i64,
    ) -> (result: Result<DoublePendulum, ConstructionError>)
        ensures
            result == spec_new(alpha, beta, alpha_dot, beta_dot, l1, l2, m1, m2, step),
            result.is_ok() <==> (-FX_PI <= alpha <= FX_PI && -FX_PI <= beta <= FX_PI && l1 > 0
                && l2 > 0 && m1 > 0 && m2 > 0 && step > 0),
            result matches Ok(p) ==> p.alpha == alpha && p.beta == beta && p.alpha_dot == alpha_dot
                && p.beta_dot == beta_dot && p.lengths == (l1, l2) && p.masses == (m1, m2)
                && p.step == step,
    {
        if alpha > FX_PI || alpha < -FX_PI {
            Err(ConstructionError::AlphaOutOfRange)
        } else if beta > FX_PI || beta < -FX_PI {
            Err(ConstructionError::BetaOutOfRange)
        } else if l1 <= 0 {
            Err(ConstructionError::LengthOneNotPositive)
        } else if l2 <= 0 {
            Err(ConstructionError::LengthTwoNotPositive)
        } else if m1 <= 0 {
            Err(ConstructionError::MassOneNotPositive)
        } else if m2 <= 0 {
            Err(ConstructionError::MassTwoNotPositive)
        } else if step <= 0 {
            Err(ConstructionError::StepNotPositive)
        } else {
            Ok(
                DoublePendulum {
                    alpha,
                    beta,
                    alpha_dot,
                    beta_dot,
                    lengths: (l1, l2),
                    masses: (m1, m2),
                    step,
                },
            )
        }
    }

    /// The angular acceleration of the first rod at the current state.
    fn alpha_ddot(&self) -> (r: i64)
        ensures
            r == spec_alpha_ddot(*self),
    {
        let (l1, l2) = self.lengths;
        let (m1, m2) = self.masses;
        let delta = fx_sub(self.alpha, self.beta);
        let sin_delta = fx_sin(delta);
        let cos_delta = fx_cos(delta);
        let t1 = fx_mul(fx_mul(fx_mul(fx_mul(m2, FX_G), l1), fx_sin(self.beta)), cos_delta);
        let t2 = fx_mul(
            fx_mul(
                fx_mul(fx_mul(m2, fx_mul(l1, l1)), fx_mul(self.alpha_dot, self.alpha_dot)),
                sin_delta,
            ),
            cos_delta,
        );
        let t3 = fx_mul(fx_mul(fx_mul(fx_add(m1, m2), FX_G), l1), fx_sin(self.alpha));
        let t4 = fx_mul(
            fx_mul(fx_mul(m2, fx_mul(l1, l2)), fx_mul(self.beta_dot, self.beta_dot)),
            sin_delta,
        );
        let num = fx_sub(fx_sub(fx_sub(t1, t2), t3), t4);
        let den = fx_sub(
            fx_mul(fx_add(m1, m2), fx_mul(l1, l1)),
            fx_mul(fx_mul(m2, fx_mul(l1, l1)), fx_mul(cos_delta, cos_delta)),
        );
        fx_div(num, den)
    }

    /// The angular acceleration of the second rod at the current state;
    /// it consumes the first rod's acceleration as an input.
    fn beta_ddot(&self) -> (r: i64)
        ensures
            r == spec_beta_ddot(*self),
    {
        let (l1, l2) = self.lengths;
        let delta = fx_sub(self.alpha, self.beta);
        let t1 = fx_mul(fx_mul(l1, fx_mul(self.alpha_dot, self.alpha_dot)), fx_sin(delta));
        let t2 = fx_mul(fx_mul(l1, self.alpha_ddot()), fx_cos(delta));
        let t3 = fx_mul(FX_G, fx_sin(self.alpha));
        fx_div(fx_sub(fx_sub(t1, t2), t3), l2)
    }

    /// The time-derivative of the state vector at the current state.
    fn xi_dot(&self) -> (r: DoublePendulum)
        ensures
            r == spec_xi_dot(*self),
    {
        DoublePendulum {
            alpha: self.alpha_dot,
            beta: self.beta_dot,
            alpha_dot: self.alpha_ddot(),
            beta_dot: self.beta_ddot(),
            lengths: self.lengths,
            masses: self.masses,
            step: self.step,
        }
    }

    /// Elementwise sum with another state vector; both operands are meant
    /// to share parameters, which is the caller's concern, never checked:
    /// the left operand's parameters are copied into the result.
    fn add(&self, rhs: &DoublePendulum) -> (r: DoublePendulum)
        ensures
            r == spec_add(*self, *rhs),
    {
        DoublePendulum {
            alpha: fx_add(self.alpha, rhs.alpha),
            beta: fx_add(self.beta, rhs.beta),
            alpha_dot: fx_add(self.alpha_dot, rhs.alpha_dot),
            beta_dot: fx_add(self.beta_dot, rhs.beta_dot),
            lengths: self.lengths,
            masses: self.masses,
            step: self.step,
        }
    }

    /// All four state components multiplied by the scalar `k`.
    fn scale(&self, k: i64) -> (r: DoublePendulum)
        ensures
            r == spec_scale(*self, k),
    {
        DoublePendulum {
            alpha: fx_mul(self.alpha, k),
            beta: fx_mul(self.beta, k),
            alpha_dot: fx_mul(self.alpha_dot, k),
            beta_dot: fx_mul(self.beta_dot, k),
            lengths: self.lengths,
            masses: self.masses,
            step: self.step,
        }
    }

    /// All four state components divided by the scalar `k`; a zero `k`
    /// saturates componentwise, as the contract of the division states.
    fn scale_down(&self, k: i64) -> (r: DoublePendulum)
        ensures
            r == spec_scale_down(*self, k),
    {
        DoublePendulum {
            alpha: fx_div(self.alpha, k),
            beta: fx_div(self.beta, k),
            alpha_dot: fx_div(self.alpha_dot, k),
            beta_dot: fx_div(self.beta_dot, k),
            lengths: self.lengths,
            masses: self.masses,
            step: self.step,
        }
    }

    /// Advance the state in place by exactly one fixed timestep with the
    /// classical fourth-order Runge-Kutta rule. The physical parameters
    /// are unchanged; no other mutation happens.
    pub fn step(&mut self)
        ensures
            *final(self) == spec_step(*old(self)),
            final(self).lengths == old(self).lengths,
            final(self).masses == old(self).masses,
            final(self).step == old(self).step,
    {
        let k1 = self.xi_dot();
        let k2 = self.add(&k1.scale(self.step).scale_down(FX_TWO)).xi_dot();
        let k3 = self.add(&k2.scale(self.step).scale_down(FX_TWO)).xi_dot();
        let k4 = self.add(&k3.scale(self.step)).xi_dot();
        let sum = k1.add(&k2.scale(FX_TWO)).add(&k3.scale(FX_TWO)).add(&k4);
        let k = sum.scale(self.step).scale_down(FX_SIX);
        self.alpha = fx_add(self.alpha, k.alpha);
        self.beta = fx_add(self.beta, k.beta);
        self.alpha_dot = fx_add(self.alpha_dot, k.alpha_dot);
        self.beta_dot = fx_add(self.beta_dot, k.beta_dot);
    }

    /// Horizontal position of the first bob.
    pub fn x1(&self) -> (r: i64)
        ensures
            r == spec_x1(*self),
    {
        let (l1, _) = self.lengths;
        fx_mul(l1, fx_sin(self.alpha))
    }

    /// Vertical position of the first bob, measured downward.
    pub fn y1(&self) -> (r: i64)
        ensures
            r == spec_y1(*self),
    {
        let (l1, _) = self.lengths;
        fx_mul(l1, fx_cos(self.alpha))
    }

    /// Horizontal position of the second bob.
    pub fn x2(&self) -> (r: i64)
        ensures
            r == spec_x2(*self),
    {
        let (l1, l2) = self.lengths;
        fx_add(fx_mul(l1, fx_sin(self.alpha)), fx_mul(l2, fx_sin(self.beta)))
    }

    /// Vertical position of the second bob, measured downward.
    pub fn y2(&self) -> (r: i64)
        ensures
            r == spec_y2(*self),
    {
        let (l1, l2) = self.lengths;
        fx_add(fx_mul(l1, fx_cos(self.alpha)), fx_mul(l2, fx_cos(self.beta)))
    }

    /// The first rod's angle.
    pub fn alpha(&self) -> (r: i64)
        ensures
            r == self.alpha,
    {
        self.alpha
    }

    /// The second rod's angle.
    pub fn beta(&self) -> (r: i64)
        ensures
            r == self.beta,
    {
        self.beta
    }

    /// The first rod's angular velocity.
    pub fn alpha_dot(&self) -> (r: i64)
        ensures
            r == self.alpha_dot,
    {
        self.alpha_dot
    }

    /// The second rod's angular velocity.
    pub fn beta_dot(&self) -> (r: i64)
        ensures
            r == self.beta_dot,
    {
        self.beta_dot
    }
}

} // verus!

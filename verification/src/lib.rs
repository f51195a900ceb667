//! A double-pendulum simulator over fixed-point arithmetic.
//!
//! The state of the pendulum is the 4-tuple of the two rod angles and their
//! angular velocities; it is advanced in place by one fixed timestep at a
//! time with the classical fourth-order Runge-Kutta method. All quantities
//! are signed 64-bit fixed-point numbers with 32 fractional bits, so every
//! arithmetic step of the integrator carries an exact contract.

pub mod fixed;
pub mod pendulum;
pub mod trig;

pub use fixed::FX_ONE;
pub use pendulum::ConstructionError;
pub use pendulum::DoublePendulum;

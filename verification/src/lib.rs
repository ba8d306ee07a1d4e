//! Fed-batch bioreactor simulation and calibration.
//!
//! The library models a single stirred reactor as a seven-channel dynamical
//! system (volume, viable cell density, glucose, glutamine, dissolved
//! oxygen, oxygen gas flow, product), integrates it with a fixed-step
//! fourth-order Runge-Kutta scheme, and scores simulated trajectories
//! against named groups of measured points so that a derivative-free
//! optimizer can fit one kinetic parameter at a time.
//!
//! Every physical quantity is carried as a fixed-point number: a signed
//! 64-bit count of `fixed::SCALE`-ths of the quantity's unit.  The fractional
//! powers that the oxygen-transfer correlation and the growth law need are
//! not computable in fixed point, so each integration stage states which
//! powers it needs and the caller supplies them; everything else is exact
//! integer arithmetic with overflow surfaced as an integration failure.

#![allow(non_snake_case)]

pub mod fixed;
pub mod model;
pub mod integrator;
pub mod tree;
pub mod regressor;
pub mod session;
pub mod tabular;

//! Chaos maps of the double pendulum, and their escape-time sibling.
//!
//! A pixel of the map shows how fast two pendulums that start almost alike
//! drift apart: the finite-time Lyapunov exponent of the trajectory that
//! starts at the pixel's two angles. This library holds everything about
//! that computation that is decided rather than calculated: which
//! parameters are acceptable, when the separation of the two trajectories
//! is measured and what a measurement means, when and why the evaluation
//! ends, and which colour an exponent gets. The calculations between the
//! decisions are floating-point arithmetic and are the caller's; numbers
//! cross the border as the bit patterns of doubles.
pub mod binary64;
pub mod params;
pub mod phase;
pub mod estimator;
pub mod runs;
pub mod color;
pub mod mandelbrot;

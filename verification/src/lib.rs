//! A small Monte Carlo path tracer whose control logic is verified.
//!
//! Every real number is held as the bit pattern of an IEEE 754 single. The
//! comparisons that steer the tracer are computed and proved on those bit
//! patterns; the arithmetic itself is glam's, reached through the few trusted
//! functions of [`lanes`].

pub mod scalar;
pub mod lanes;
pub mod arith;
pub mod vec3;
pub mod ray;
pub mod util;
pub mod material;
pub mod object;
pub mod camera;
pub mod render;
pub mod scene;

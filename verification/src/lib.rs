//! A recursive Monte Carlo path tracer over saturating fixed-point arithmetic.
//!
//! Geometry, colors and camera state are `Q47.16` fixed-point values: an
//! `i64` holding `round(real * 65536)`, saturated to `FP_MAX` so that every
//! arithmetic operation is total. Each executable function is specified
//! against an exact mathematical model, so a whole render is a pure function
//! of the scene, the camera and the random seed.

pub mod camera;
pub mod color;
pub mod fixed;
pub mod hittable;
pub mod hittable_list;
pub mod interval;
pub mod material;
pub mod ray;
pub mod rng;
pub mod sphere;
pub mod vec3;

use vstd::prelude::*;

verus! {

} // verus!

//! A small animation engine: spheres under a simplified physics simulation,
//! rendered by a Monte Carlo path tracer with motion blur and depth of field.
//!
//! All scalar quantities are fixed-point numbers: an `i64` counts millionths
//! of a unit, so `1_000_000` stands for `1.0`. Every arithmetic operation is
//! total — results are clamped to the `i64` range and a division by zero
//! yields zero — and every operation's exact value is pinned by a spec
//! function, so whole-pipeline results are determined bit for bit.

pub mod animation;
pub mod camera;
pub mod color;
pub mod fixed;
pub mod hit;
pub mod image;
pub mod material;
pub mod ray;
pub mod physics;
pub mod render;
pub mod rng;
pub mod sphere;
pub mod stopwatch;
pub mod vector3d;
pub mod world;

pub use fixed::FX_ONE;

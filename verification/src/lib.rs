//! An offline Monte Carlo ray tracer over verified fixed-point arithmetic.
//!
//! Scenes are built from spheres, moving spheres and axis-aligned boxes,
//! each carrying a diffuse, metallic or dielectric material; a thin-lens
//! camera turns viewport coordinates into rays, and a depth-limited
//! recursive estimator integrates the radiance arriving at each pixel.
//! Every real quantity is a fixed-point scalar, so every computation is
//! pinned exactly by the spec functions beside it; randomness enters
//! through a single trusted draw in [`sampling`], and everything above it
//! is verified for every outcome of the draws.

pub mod camera;
pub mod fixed;
pub mod hittable;
pub mod material;
pub mod ray;
pub mod render;
pub mod rect;
pub mod sampling;
pub mod scenes;
pub mod sphere;
pub mod utils;
pub mod vec3;

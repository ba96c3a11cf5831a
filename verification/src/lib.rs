//! An offline Monte-Carlo path tracer over fixed-point arithmetic.
//!
//! The crate renders a scene of spheres, planes and parallelograms with
//! physically inspired materials: camera rays are intersected against the
//! scene, bounced specularly, diffusely or through refraction, and the
//! radiance gathered along each path is averaged into a pixel color. All
//! scalars are 16.16 fixed-point numbers, so every computation is exact
//! integer arithmetic with stated rounding, and the contracts pin each
//! result down.

pub mod fx;
pub mod material;
pub mod render;
pub mod rng;
pub mod scene;
pub mod vector;

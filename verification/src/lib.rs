//! A Monte Carlo path tracer core built on exact fixed-point arithmetic.
//!
//! Geometry, materials, textures, gradient noise and the radiance
//! integrator are all verified; randomness enters only through a pair of
//! trusted wrappers around the `rand` crate, and every other function
//! carries an exact contract over the fixed-point model.

pub mod aabb;
pub mod aarect;
pub mod boxes;
pub mod color;
pub mod display;
pub mod fixed;
pub mod hittable;
pub mod hittable_list;
pub mod material;
pub mod perlin;
pub mod ray;
pub mod rng;
pub mod sphere;
pub mod texture;
pub mod tracer;
pub mod vec3;

pub use fixed::Fx;

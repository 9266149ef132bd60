//! A stochastic path tracer for scenes of spheres.
//!
//! The renderer casts randomly jittered camera rays at each pixel, bounces
//! them off Lambertian, metallic and dielectric surfaces, and accumulates
//! an averaged, gamma-corrected color.  Single-precision arithmetic is
//! performed by outside calls behind the trusted layer in [`math`]; every
//! decision built on top of it — root selection, nearest-hit scanning,
//! scattering, recursion, sampling, quantization and image assembly — is
//! verified against an exact model of that layer.

pub mod camera;
pub mod laws;
pub mod materials;
pub mod math;
pub mod ppm;
pub mod ray;
pub mod render;
pub mod rng;
pub mod sphere;
pub mod surface;
pub mod util;
pub mod world;

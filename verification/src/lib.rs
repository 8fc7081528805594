//! A stochastic path tracer over spheres, verified end to end.
//!
//! The renderer traces camera rays through a scene of spheres with diffuse,
//! metallic and dielectric surfaces, accumulating anti-aliased, gamma-corrected
//! color per pixel. All arithmetic is carried out on a fixed-point scalar
//! ([`fixed::Fx`]) with exact, total semantics, so every stage — camera ray
//! generation, ray–sphere intersection, material scattering, and the recursive
//! radiance accumulation — carries a contract that pins its result down as a
//! function of its inputs and of the sampler's seed.
//!
//! Image encoding, scene authoring and entropy gathering are left to callers.

pub mod camera;
pub mod color;
pub mod fixed;
pub mod laws;
pub mod material;
pub mod math;
pub mod random;
pub mod primitives;
pub mod ray;
pub mod ray_trace;
pub mod world;

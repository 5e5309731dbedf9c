//! Verified core of a Monte-Carlo path tracer.
//!
//! The numeric side of the renderer works on IEEE-754 doubles, which the
//! verifier does not reason about; that code lives in the surrounding
//! application. What stands here is the logic that is exact: the surface-side
//! bookkeeping that orients normals, the terminal/scattering split of the
//! material model, the shape of the bounding-volume hierarchy over the
//! sorted object list, the integrator's step rule, and the Perlin
//! permutation tables whose well-formedness the noise sampler depends on.

pub mod bvh;
pub mod hit;
pub mod integrator;
pub mod material;
pub mod perlin;

//! Verified core of a Monte Carlo path tracer.
//!
//! The renderer's numeric work is floating point and lives outside this
//! library; what is verified here is the logic that does not depend on the
//! reals: the depth-bounded control of the recursive ray-color integrator,
//! the Perlin permutation tables with their hashed gradient indexing, and
//! the pixel addressing of image-mapped textures.

pub mod integrator;
pub mod perlin;
pub mod texture;

//! Verified core of a small ray tracer: the framebuffer, its plain-text
//! image encoding, the index bookkeeping behind 4×4 cofactor expansion, and
//! the selection of the visible hit among intersection distances.
//!
//! The floating-point algebra (tuples, matrices, spheres, shading) is not
//! part of this crate's verified surface: it works on `f64`, and hands the
//! library plain integer values (channel levels, IEEE bit patterns).

pub mod canvas;
pub mod hit;
pub mod minor;
pub mod ppm;

//! A verified kernel for a small interactive sketch runner.
//!
//! The crate provides a homogeneous-coordinate geometric kernel
//! (points, vectors, sizes, colors) together with a canvas that maps
//! coordinates to a linear RGBA byte buffer and throttles presentation.
//!
//! All numeric quantities are carried by [`scalar::Scalar`], a
//! fixed-point number with a million units to one, so that every
//! operation of the kernel has an exact, machine-checked contract.

pub mod canvas;
pub mod clock;
pub mod color;
pub mod point2;
pub mod projectiles;
pub mod rgb;
pub mod point3;
pub mod scalar;
pub mod size2;
pub mod sketch;
pub mod surface;
pub mod vec2;
pub mod vec3;

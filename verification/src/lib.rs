//! A ray tracer core with machine-checked contracts.
//!
//! A scene of shapes and a light is rendered by casting a ray through every
//! pixel of a pinhole camera. The hits of a ray are gathered into a bounded
//! list in order of distance, the nearest hit in front of the ray is lit by
//! the Phong model with a shadow test, and mirrored and refracted rays are
//! followed to a bounded depth.
//!
//! Every quantity is a fixed-point [`scalar::Scalar`] with 32 fractional
//! bits. Every operation saturates instead of overflowing, so every function
//! is total in its numbers and its result is stated exactly by a
//! specification function of the same name with `spec_` before it.
//!
//! The modules, leaves first:
//! - numbers: [`scalar`], [`roots`], [`trig`], [`common`];
//! - geometry: [`tuple4d`], [`matrix`], [`quaternion`], [`transform`], [`ray`];
//! - the scene: [`color`], [`light`], [`material`], [`shape`], [`world`];
//! - the intersection engine: [`intersection`], [`intersection_list`], [`engine`];
//! - shading: [`precomputed_component`], [`shading`];
//! - rendering: [`camera`], [`canvas`], [`backend`];
//! - ready-made scenes: [`coord_axes`], [`street`].

pub mod scalar;
pub mod roots;
pub mod trig;
pub mod common;
pub mod tuple4d;
pub mod color;
pub mod matrix;
pub mod quaternion;
pub mod transform;
pub mod ray;
pub mod light;
pub mod material;
pub mod shape;
pub mod intersection;
pub mod intersection_list;
pub mod world;
pub mod engine;
pub mod precomputed_component;
pub mod shading;
pub mod camera;
pub mod canvas;
pub mod backend;
pub mod coord_axes;
pub mod street;

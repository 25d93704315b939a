//! Geometry and bookkeeping of a small path tracer with sky scattering.

pub mod atmosphere;
pub mod binary64;
pub mod camera;
pub mod characteristics;
pub mod distance_field;
pub mod geometry;
pub mod render;
pub mod scene;
pub mod vector;

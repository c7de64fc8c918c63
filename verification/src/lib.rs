//! A small ray-tracing core: linear-RGB color arithmetic, a recursive
//! Fresnel-weighted shading engine, a camera renderer with a tiled pixel
//! sweep, and a voxel-grid intersector.
//!
//! All real-valued quantities are carried in saturating fixed-point
//! numbers (`fixed::Fx`), so every operation has an exact integer
//! specification and every function's result is pinned down by its
//! contract.

pub mod color;
pub mod fixed;
pub mod render;
pub mod scene;
pub mod texture;
pub mod tracer;
pub mod vec3;
pub mod voxel;
pub mod world;

//! Decisions behind a small real-time demo: a textured quad whose material
//! samples a texture that a compute pass mixes from pattern layers.
//!
//! The engine owns scheduling, assets and the GPU. This crate holds what the
//! demo itself decides: which vertex attributes the material binds and where,
//! when the pattern texture counts as ready, and what the compute node
//! dispatches in a frame.

pub mod readiness;
pub mod material;
pub mod mixing;

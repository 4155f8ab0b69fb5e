//! Core of a terminal ray-tracer front end: camera-configuration parsing,
//! sample accumulation, linear-to-display color mapping, half-block
//! rasterization, and the control logic for preview and full renders.
//!
//! Linear radiance is carried as fixed-point integers in micro-units
//! (1 000 000 per unit of radiance), so the arithmetic of the pipeline is
//! exact and free of floating point.

pub mod app_state;
pub mod color;
pub mod config;
pub mod parse;
pub mod raster;
pub mod render;
pub mod sample;
pub mod scene;

use vstd::prelude::*;

verus! {

/// Fixed-point scale: one unit of linear radiance in micro-units.
pub const RADIANCE_ONE: i64 = 1_000_000;

} // verus!

//! A verified model of a small two-pass rendering scene: a textured
//! background quad and a time-animated water quad drawn beneath it.
//!
//! The library holds the scene's data and decisions — quad geometry, the
//! vertex buffer layout, texture and sampler descriptions, surface
//! configuration and resizing, per-frame water regeneration, the frame
//! plan, and the recovery policy for presentation errors — all in plain
//! integer values with proved contracts. Coordinates are kept in
//! milli-units (one thousandth of a normalized-device-coordinate unit)
//! and elapsed time in milliseconds, so that the model stays exact; a
//! host program converts these to the floating-point values its graphics
//! API expects.

pub mod background;
pub mod frame;
pub mod geometry;
pub mod pipeline;
pub mod scene;
pub mod surface;
pub mod texture;
pub mod water;

//! Procedural line-art animator core: fixed-point gradient noise, the
//! radiating line geometry, the per-vertex displacement rule, and the
//! frame-paced animation state machine.
//!
//! All scalar quantities (coordinates, time, noise values, stroke widths)
//! are fixed-point integers counting millionths of a unit, so that every
//! computation is exact and fully specified.

pub mod animation;
pub mod displace;
pub mod fixed;
pub mod frame;
pub mod geometry;
pub mod noise;

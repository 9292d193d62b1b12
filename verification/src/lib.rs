//! Procedural generation of flat-extruded emblem meshes and an orbit camera.
//!
//! Every coordinate and angle is carried as a fixed-point `i64` (see
//! [`fixed`]): the value [`fixed::SCALE`] stands for 1.0 world unit, or for
//! 1 radian. Trigonometric samples (cosine/sine pairs on the unit circle)
//! are plain fixed-point values supplied by the caller; everything computed
//! from them here is verified.

use vstd::prelude::*;

pub mod camera;
pub mod config;
pub mod emblem;
pub mod fixed;
pub mod layout;
pub mod mesh;

verus! {

/// Why a shape construction or a configuration was rejected.
#[derive(Clone, Copy, PartialEq, Eq, Structural, Debug)]
pub enum GeometryError {
    /// The requested shape is degenerate: a polygon profile with fewer than
    /// three points, or a ring whose inner radius is not below its outer one.
    InvalidGeometry,
    /// A configuration knob is outside its allowed range: a zoom interval
    /// with `min >= max`, or a segment count too small to close a loop.
    ConfigurationOutOfRange,
}

} // verus!

//! A minimal fixed-function, immediate-mode graphics core.
//!
//! Clients record drawing commands against the context that is current on
//! their thread. At a frame boundary the recorded commands are interpreted in
//! order against the context's modelview and projection matrices, consecutive
//! vertices are joined into line segments, and the segments are mapped to
//! pixel coordinates of the bound surface.
//!
//! Coordinates are IEEE-754 binary32 values. The library never computes with
//! them: it stores their bit patterns and hands them to the two arithmetic
//! callbacks that the caller passes in, one for the affine transform and one
//! for the viewport mapping. Everything else is decided here.

pub mod scalar;
pub mod geometry;
pub mod command;
pub mod transform;
pub mod error;
pub mod context;
pub mod frame;
pub mod registry;
pub mod laws;
pub mod visual;
pub mod window;

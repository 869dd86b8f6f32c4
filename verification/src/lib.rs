//! A bounded-buffer signal-scoring library.
//!
//! The tracker keeps three fixed-capacity rolling buffers of single-precision
//! observations, carried as their raw binary32 bit patterns, and derives six
//! scalar metrics and a blended score from them on every update.

pub mod laws;
pub mod model;
pub mod scalar;
pub mod system;

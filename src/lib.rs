//! Path recording, compilation and mesh-buffer management for a
//! triangle tessellation service.
//!
//! Coordinates are carried as IEEE-754 single-precision bit patterns, so the
//! library itself never performs floating-point arithmetic: it checks,
//! records and moves values, and the tessellators read them.
use vstd::prelude::*;

pub mod geometry;
pub mod path;
pub mod buffer;

verus! {

} // verus!

//! Sizes for the 3D pass.
//!
//! The projection itself is floating-point work done in the host layer;
//! the engine only carries the framebuffer extent it is recomputed from
//! every frame, so resizing needs no restart.

use vstd::prelude::*;

verus! {

/// The framebuffer extent the 3D pass projects into, as the platform
/// reports it.
#[derive(Debug, Clone, Copy)]
pub struct ThreedSize {
    pub width: i32,
    pub height: i32,
}

} // verus!

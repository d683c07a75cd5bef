//! Verified core of an immediate-mode GUI rendering backend: each frame it
//! turns a GUI toolkit's draw output (clipped meshes, texture deltas,
//! logical-space clip rectangles) into concrete GPU resource operations
//! (texture creation and partial update, deferred deletion, vertex/index
//! buffer growth and upload, integer scissor rectangles).
//!
//! The library performs no GPU calls itself: every frame it produces an
//! ordered list of texture commands and draw calls that a thin adapter
//! executes against a real graphics API.

use vstd::prelude::*;

pub mod painter;
pub mod primitives;
pub mod scissor;
pub mod textures;

verus! {

} // verus!

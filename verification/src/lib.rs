//! Layer composition and dynamic lighting for a pixel-art renderer.
//!
//! This crate holds the arithmetic and bookkeeping of the pipeline: the
//! registry of layers and what each one needs set up, the pool of private
//! drawing channels that lights claim, the topology of shadow meshes, and the
//! bookkeeping that recycles those meshes from frame to frame. It spawns
//! nothing itself; the engine glue reads the plans made here and acts on them.

use vstd::prelude::*;

pub mod camera;
pub mod color;
pub mod consts;
pub mod layer;
pub mod light;
pub mod screen;
pub mod utils;

verus! {

/// This is a render layer that explicitly doesn't render
pub const DUMMY_LAYER_USIZE: usize = 0;

} // verus!

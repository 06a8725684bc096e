//! What a camera of the pipeline is set up with.

use vstd::prelude::*;

use crate::color::LinearColor;
use crate::layer::layer_defns::{SMUSH_KEY, SMUSH_RENDER_ORDER};

verus! {

/// Where a camera draws.
#[derive(Clone, Copy, Debug, PartialEq, Eq)]
pub enum CameraTarget {
    /// Straight to the window.
    Window,
    /// Into a blank offscreen image kept under a stable asset key, so that
    /// other consumers can find it.
    Keyed { asset_key: u128, width: u32, height: u32 },
    /// Into a blank offscreen image made for this camera alone.
    Scratch { width: u32, height: u32 },
}

/// Everything that decides how one offscreen camera is spawned.
#[derive(Clone, Copy, Debug, PartialEq, Eq)]
pub struct CameraPlan {
    /// Cameras with a lower order draw first.
    pub order: i64,
    /// Where the camera draws.
    pub target: CameraTarget,
    /// What the target is cleared to at the start of each frame.
    pub clear_color: LinearColor,
    /// The near plane of the orthographic projection.
    pub near: i32,
    /// The far plane of the orthographic projection.
    pub far: i32,
    /// The projection's scale is one over this number.
    pub scale_divisor: u32,
    /// The only render layer whose entities the camera sees.
    pub render_layer: usize,
    /// Whether the camera snaps to the dynamic camera each frame.
    pub follow: bool,
}

/// What the camera that puts the finished stack on the window is spawned
/// with. It keeps the projection that any 2D camera starts with.
#[derive(Clone, Copy, Debug, PartialEq, Eq)]
pub struct SmushCameraPlan {
    /// Cameras with a lower order draw first.
    pub order: i64,
    /// Where the camera draws.
    pub target: CameraTarget,
    /// What the window is cleared to before the quads are drawn.
    pub clear_color: LinearColor,
    /// The only render layer whose entities the camera sees.
    pub render_layer: usize,
}

/// Plans the camera that draws the output quads to the window: it comes
/// after every other camera, sees the smush layer only, and clears the
/// window to black, which is what shows in the bars beside the quads.
pub fn setup_smush_camera() -> (plan: SmushCameraPlan)
    ensures
        plan.order == SMUSH_RENDER_ORDER + 1,
        plan.target == CameraTarget::Window,
        plan.clear_color == (LinearColor { red: 0, green: 0, blue: 0, alpha: 1000 }),
        plan.render_layer == SMUSH_KEY,
{
    SmushCameraPlan {
        order: SMUSH_RENDER_ORDER as i64 + 1,
        target: CameraTarget::Window,
        clear_color: LinearColor::black(),
        render_layer: SMUSH_KEY as usize,
    }
}

} // verus!

//! Sizes of the offscreen images that cameras draw into.

use vstd::prelude::*;

use crate::screen::LayersRes;

verus! {

/// The size of a blank offscreen image: the screen itself for a world layer,
/// the grown screen for an overlay layer.
pub open spec fn screen_extent(res: &LayersRes, is_overlay: bool) -> (int, int) {
    if is_overlay {
        res.grown_size()
    } else {
        (res.screen_size.0 as int, res.screen_size.1 as int)
    }
}

/// Measures the blank image that a camera of the given resolution class
/// draws into.
pub fn blank_screen_extent(res: &LayersRes, is_overlay: bool) -> (extent: (u32, u32))
    requires
        is_overlay ==> res.wf(),
    ensures
        (extent.0 as int, extent.1 as int) == screen_extent(res, is_overlay),
{
    let mult: u32 = if is_overlay {
        res.overlay_growth
    } else {
        1
    };
    (res.screen_size.0 * mult, res.screen_size.1 * mult)
}

} // verus!

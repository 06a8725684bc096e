//! Constants shared by every camera of the pipeline.

use vstd::prelude::*;

use crate::color::LinearColor;

verus! {

/// Anything further back than this gets culled by the camera(s)
pub const ZIX_MIN: i32 = -600;

/// Anything further forward than this gets culled by the camera(s)
pub const ZIX_MAX: i32 = 600;

/// The clear colour of a target that starts each frame empty: black with no
/// opacity at all.
pub fn color_none() -> (color: LinearColor)
    ensures
        color == (LinearColor { red: 0, green: 0, blue: 0, alpha: 0 }),
{
    LinearColor::linear_rgba(0, 0, 0, 0)
}

} // verus!

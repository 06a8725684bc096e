//! The sizes that the whole pipeline is configured with.

use vstd::prelude::*;

verus! {

/// How big the screen is, in world pixels and on the overlay layers.
#[derive(Clone, Copy, Debug, PartialEq, Eq)]
pub struct LayersRes {
    /// How big is the world screen
    pub screen_size: (u32, u32),
    /// How many multiples of the screen size are things like menu, overlay, transition...
    pub overlay_growth: u32,
}

impl LayersRes {
    /// The grown screen still has a width and a height that fit in 32 bits.
    pub open spec fn wf(&self) -> bool {
        &&& self.screen_size.0 * self.overlay_growth <= u32::MAX
        &&& self.screen_size.1 * self.overlay_growth <= u32::MAX
    }

    /// The size of the screen once grown: each side times the overlay
    /// growth.
    pub open spec fn grown_size(&self) -> (int, int) {
        (self.screen_size.0 * self.overlay_growth, self.screen_size.1 * self.overlay_growth)
    }

    /// Takes the sizes if the grown screen can be measured in 32 bits, and
    /// refuses them otherwise.
    pub fn new(screen_size: (u32, u32), overlay_growth: u32) -> (res: Option<Self>)
        ensures
            res == if (Self { screen_size, overlay_growth }).wf() {
                Some(Self { screen_size, overlay_growth })
            } else {
                None
            },
    {
        let made = Self { screen_size, overlay_growth };
        if made.is_wf() {
            Some(made)
        } else {
            None
        }
    }

    /// Tests whether the grown screen can be measured in 32 bits.
    pub fn is_wf(&self) -> (fits: bool)
        ensures
            fits == self.wf(),
    {
        let wide = self.screen_size.0.checked_mul(self.overlay_growth);
        let high = self.screen_size.1.checked_mul(self.overlay_growth);
        wide.is_some() && high.is_some()
    }

    /// The size of the screen once grown, which is what every output quad
    /// covers and what the window is measured against when it is resized.
    pub fn effective_window(&self) -> (size: (u32, u32))
        requires
            self.wf(),
        ensures
            (size.0 as int, size.1 as int) == self.grown_size(),
    {
        (self.screen_size.0 * self.overlay_growth, self.screen_size.1 * self.overlay_growth)
    }
}

} // verus!

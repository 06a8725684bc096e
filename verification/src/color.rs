//! Colours in linear RGB, held as whole thousandths of full intensity.

use vstd::prelude::*;

verus! {

/// The value of a channel at full intensity.
pub const FULL_INTENSITY: u16 = 1000;

/// A colour in linear RGB with alpha. Each channel counts thousandths of
/// full intensity, so `500` is one half and `1000` is fully on.
#[derive(Clone, Copy, Debug, PartialEq, Eq, Structural)]
pub struct LinearColor {
    pub red: u16,
    pub green: u16,
    pub blue: u16,
    pub alpha: u16,
}

impl LinearColor {
    /// An opaque colour from its three channels.
    pub fn linear_rgb(red: u16, green: u16, blue: u16) -> (color: Self)
        ensures
            color == (Self { red, green, blue, alpha: FULL_INTENSITY }),
    {
        Self { red, green, blue, alpha: FULL_INTENSITY }
    }

    /// A colour from its four channels.
    pub fn linear_rgba(red: u16, green: u16, blue: u16, alpha: u16) -> (color: Self)
        ensures
            color == (Self { red, green, blue, alpha }),
    {
        Self { red, green, blue, alpha }
    }

    /// Opaque black.
    pub fn black() -> (color: Self)
        ensures
            color == (Self { red: 0, green: 0, blue: 0, alpha: FULL_INTENSITY }),
    {
        Self::linear_rgb(0, 0, 0)
    }

    /// Opaque white.
    pub fn white() -> (color: Self)
        ensures
            color == (Self {
                red: FULL_INTENSITY,
                green: FULL_INTENSITY,
                blue: FULL_INTENSITY,
                alpha: FULL_INTENSITY,
            }),
    {
        Self::linear_rgb(FULL_INTENSITY, FULL_INTENSITY, FULL_INTENSITY)
    }
}

} // verus!

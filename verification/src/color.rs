//! Display-encoded colours.

use vstd::prelude::*;

verus! {

/// A colour after display encoding: each channel clamped and scaled to a byte.
#[derive(Clone, Copy, Debug, PartialEq, Eq, Structural)]
pub struct DisplayColor {
    pub r: u8,
    pub g: u8,
    pub b: u8,
}

/// The alpha byte of every packed pixel.
pub const OPAQUE: u8 = 255;

impl DisplayColor {
    /// The four bytes of the pixel in RGBA order, as a sequence.
    pub open spec fn rgba(self) -> Seq<u8> {
        seq![self.r, self.g, self.b, OPAQUE]
    }

    /// The colour with the given channels.
    pub fn new(r: u8, g: u8, b: u8) -> (c: Self)
        ensures
            c == (DisplayColor { r, g, b }),
    {
        DisplayColor { r, g, b }
    }

    /// Packs the colour into four bytes, red first, alpha fixed at 255.
    pub fn to_rgba(self) -> (bytes: [u8; 4])
        ensures
            bytes@ == self.rgba(),
    {
        let bytes: [u8; 4] = [self.r, self.g, self.b, OPAQUE];
        assert(bytes@ =~= self.rgba());
        bytes
    }
}

impl Default for DisplayColor {
    /// Black.
    fn default() -> (c: Self)
        ensures
            c == (DisplayColor { r: 0, g: 0, b: 0 }),
    {
        DisplayColor { r: 0, g: 0, b: 0 }
    }
}

} // verus!

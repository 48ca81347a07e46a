//! Colours of the LED chain.

use vstd::prelude::*;

verus! {

/// One LED's colour, eight bits per channel.
#[derive(Debug, Clone, Copy, PartialEq, Eq, Structural)]
pub struct RgbColor {
    pub r: u8,
    pub g: u8,
    pub b: u8,
}

impl RgbColor {
    pub fn new(r: u8, g: u8, b: u8) -> (color: RgbColor)
        ensures
            color == (RgbColor { r, g, b }),
    {
        RgbColor { r, g, b }
    }

    /// The colour as the 24-bit word that goes down the wire: green in
    /// bits 16 to 23, red in bits 8 to 15, blue in bits 0 to 7.
    pub open spec fn wire_word(self) -> int {
        self.g as int * 65536 + self.r as int * 256 + self.b as int
    }

    pub fn as_u32(&self) -> (word: u32)
        ensures
            word == self.wire_word(),
    {
        let g: u8 = self.g;
        let r: u8 = self.r;
        let b: u8 = self.b;
        assert((((g as u32) << 16) | ((r as u32) << 8) | (b as u32)) == (g as u32) * 65536 + (
        r as u32) * 256 + (b as u32)) by (bit_vector);
        ((g as u32) << 16) | ((r as u32) << 8) | (b as u32)
    }
}

} // verus!

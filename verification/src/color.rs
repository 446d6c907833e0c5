//! Colours of four byte channels.

use vstd::prelude::*;

verus! {

/// A colour with one byte per channel.
#[derive(Copy, Clone, Debug, PartialEq, Eq, Structural)]
pub struct Color {
    pub r: u8,
    pub g: u8,
    pub b: u8,
    pub a: u8,
}

impl Color {
    /// The colour packed as `0xRRGGBBAA`, most significant byte first.
    pub open spec fn packed(self) -> int {
        self.r * 0x100_0000 + self.g * 0x1_0000 + self.b * 0x100 + self.a
    }

    /// The channel-wise mean of two colours, each channel rounded down.
    pub open spec fn mean(self, other: Color) -> Color {
        Color {
            r: ((self.r + other.r) / 2) as u8,
            g: ((self.g + other.g) / 2) as u8,
            b: ((self.b + other.b) / 2) as u8,
            a: ((self.a + other.a) / 2) as u8,
        }
    }

    /// Unpacks a colour from `0xRRGGBBAA`: the most significant byte is red,
    /// the least significant one is alpha.
    pub fn from_u32(num: u32) -> (c: Color)
        ensures
            c.packed() == num,
            c.r == num / 0x100_0000,
            c.g == (num / 0x1_0000) % 0x100,
            c.b == (num / 0x100) % 0x100,
            c.a == num % 0x100,
    {
        let r: u8 = (num >> 24) as u8;
        let g: u8 = ((num >> 16) & 0xff) as u8;
        let b: u8 = ((num >> 8) & 0xff) as u8;
        let a: u8 = (num & 0xff) as u8;
        assert(num >> 24 == num / 0x100_0000 && (num >> 24) < 0x100) by (bit_vector);
        assert((num >> 16) & 0xff == (num / 0x1_0000) % 0x100) by (bit_vector);
        assert((num >> 8) & 0xff == (num / 0x100) % 0x100) by (bit_vector);
        assert(num & 0xff == num % 0x100) by (bit_vector);
        assert((num / 0x100_0000) * 0x100_0000 + ((num / 0x1_0000) % 0x100) * 0x1_0000 + ((num
            / 0x100) % 0x100) * 0x100 + num % 0x100 == num) by (bit_vector);
        Color { r, g, b, a }
    }

    /// Replaces the colour by its mean with `tint`.
    pub fn tint(&mut self, tint: Color)
        ensures
            *final(self) == old(self).mean(tint),
    {
        self.r = ((self.r as u16 + tint.r as u16) / 2) as u8;
        self.g = ((self.g as u16 + tint.g as u16) / 2) as u8;
        self.b = ((self.b as u16 + tint.b as u16) / 2) as u8;
        self.a = ((self.a as u16 + tint.a as u16) / 2) as u8;
    }
}

} // verus!

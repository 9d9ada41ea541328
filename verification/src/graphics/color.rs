//! Colors: 32 bits, alpha in the highest byte, then red, green and blue.

use vstd::prelude::*;

verus! {

pub const BLACK: u32 = 0x000000;
pub const WHITE: u32 = 0xFFFFFF;
pub const RED: u32 = 0xFF0000;
pub const GREEN: u32 = 0x00FF00;
pub const BLUE: u32 = 0x0000FF;
pub const ORANGE: u32 = 0xFF8C00;
pub const DARK_GRAY: u32 = 0x333333;
pub const LIGHT_GRAY: u32 = 0xAAAAAA;

/// A color.
#[derive(Debug, Clone, Copy, PartialEq, Eq, Structural)]
pub struct Color(pub u32);

/// The color with the given parts.
pub open spec fn packed(a: u8, r: u8, g: u8, b: u8) -> u32 {
    ((a as u32) << 24) | ((r as u32) << 16) | ((g as u32) << 8) | (b as u32)
}

impl Color {
    /// The color with the given bits.
    pub fn from_raw(raw: u32) -> (c: Color)
        ensures
            c.0 == raw,
    {
        Color(raw)
    }

    /// The color with the given red, green and blue; its alpha byte is 0.
    pub fn rgb(r: u8, g: u8, b: u8) -> (c: Color)
        ensures
            c.0 == packed(0, r, g, b),
    {
        assert(((r as u32) << 16) | ((g as u32) << 8) | (b as u32) == ((0u8 as u32) << 24) | ((
        r as u32) << 16) | ((g as u32) << 8) | (b as u32)) by (bit_vector);
        Color(((r as u32) << 16) | ((g as u32) << 8) | (b as u32))
    }

    /// The color with the given alpha, red, green and blue.
    pub fn argb(a: u8, r: u8, g: u8, b: u8) -> (c: Color)
        ensures
            c.0 == packed(a, r, g, b),
    {
        Color(((a as u32) << 24) | ((r as u32) << 16) | ((g as u32) << 8) | (b as u32))
    }

    /// The bits of the color.
    pub fn as_u32(&self) -> (raw: u32)
        ensures
            raw == self.0,
    {
        self.0
    }

    /// The bytes of the color as they stand in memory: blue first.
    pub fn to_le_bytes(&self) -> (bytes: [u8; 4])
        ensures
            bytes@ == crate::encoding::u32_le(self.0),
    {
        let v: u32 = self.0;
        let bytes: [u8; 4] = [
            (v % 256) as u8,
            ((v / 256) % 256) as u8,
            ((v / 65536) % 256) as u8,
            ((v / 16777216) % 256) as u8,
        ];
        assert(bytes@ =~= crate::encoding::u32_le(self.0));
        bytes
    }
}

/// Each part of a packed color is found again in its byte, and the color is
/// the sum of its parts at their places.
pub proof fn lemma_packed_parts(a: u8, r: u8, g: u8, b: u8)
    ensures
        (packed(a, r, g, b) >> 24) & 0xFF == a,
        (packed(a, r, g, b) >> 16) & 0xFF == r,
        (packed(a, r, g, b) >> 8) & 0xFF == g,
        packed(a, r, g, b) & 0xFF == b,
        packed(a, r, g, b) == a * 16777216 + r * 65536 + g * 256 + b,
{
    let c = packed(a, r, g, b);
    assert((c >> 24) & 0xFF == a && (c >> 16) & 0xFF == r && (c >> 8) & 0xFF == g && c & 0xFF == b
        && c == a * 16777216 + r * 65536 + g * 256 + b) by (bit_vector)
        requires
            c == ((a as u32) << 24) | ((r as u32) << 16) | ((g as u32) << 8) | (b as u32),
    ;
}

} // verus!

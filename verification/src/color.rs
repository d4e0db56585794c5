//! RGBA colors with 8-bit channels, and their packing into the 32-bit
//! texel words used by the software backend.

use vstd::prelude::*;

verus! {

/// An RGBA color; each channel is an 8-bit intensity.
#[derive(Clone, Copy, Debug, PartialEq, Eq, Structural, Hash)]
pub struct Color {
    /// Red channel.
    pub r: u8,
    /// Green channel.
    pub g: u8,
    /// Blue channel.
    pub b: u8,
    /// Alpha (opacity) channel.
    pub a: u8,
}

/// The 32-bit texel word that stores a color: little-endian RGBA.
pub open spec fn color_word(c: Color) -> int {
    c.r + 256 * (c.g + 256 * (c.b + 256 * c.a))
}

impl Color {
    /// Builds a color from its four channels.
    pub fn from_rgba(r: u8, g: u8, b: u8, a: u8) -> (c: Color)
        ensures
            c == (Color { r, g, b, a }),
    {
        Color { r, g, b, a }
    }

    /// Opaque white.
    pub fn white() -> (c: Color)
        ensures
            c == (Color { r: 255u8, g: 255u8, b: 255u8, a: 255u8 }),
    {
        Color { r: 255, g: 255, b: 255, a: 255 }
    }

    /// Opaque black.
    pub fn black() -> (c: Color)
        ensures
            c == (Color { r: 0u8, g: 0u8, b: 0u8, a: 255u8 }),
    {
        Color { r: 0, g: 0, b: 0, a: 255 }
    }

    /// Packs the color into its texel word.
    pub fn to_word(&self) -> (w: u32)
        ensures
            w == color_word(*self),
    {
        (self.r as u32) + 256 * ((self.g as u32) + 256 * ((self.b as u32) + 256 * (self.a as u32)))
    }
}

impl Default for Color {
    /// The engine's default color is opaque white.
    fn default() -> (c: Color)
        ensures
            c == (Color { r: 255u8, g: 255u8, b: 255u8, a: 255u8 }),
    {
        Color { r: 255, g: 255, b: 255, a: 255 }
    }
}

} // verus!

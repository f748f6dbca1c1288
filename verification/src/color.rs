//! Pixel color model for the drawing interface.
//!
//! The drawing front end hands the driver 16-bit RGB565 words. The packed
//! monochrome encoder only ever looks at two projections of such a word:
//! its low byte (the binarization input) and its three channels (for the
//! brightness used by whole-screen clears).

use vstd::prelude::*;

verus! {

/// A color in RGB565 encoding: red in bits 15..=11, green in bits 10..=5,
/// blue in bits 4..=0.
#[derive(Debug, Clone, Copy, PartialEq, Eq, Structural)]
pub struct Color565 {
    /// The raw 16-bit word.
    pub raw: u16,
}

/// One pixel of a drawing request: a coordinate (signed, so that front ends
/// may draw shapes that overhang the panel) and its color.
#[derive(Debug, Clone, Copy, PartialEq, Eq, Structural)]
pub struct PixelDraw {
    /// Horizontal coordinate, 0 at the left edge.
    pub x: i32,
    /// Vertical coordinate, 0 at the top edge.
    pub y: i32,
    /// The pixel's color.
    pub color: Color565,
}

/// The red channel: bits 15..=11 of the raw word.
pub open spec fn spec_red(c: Color565) -> u8 {
    ((c.raw >> 11) & 0x1F) as u8
}

/// The green channel: bits 10..=5 of the raw word.
pub open spec fn spec_green(c: Color565) -> u8 {
    ((c.raw >> 5) & 0x3F) as u8
}

/// The blue channel: bits 4..=0 of the raw word.
pub open spec fn spec_blue(c: Color565) -> u8 {
    (c.raw & 0x1F) as u8
}

/// The brightness a color is reduced to before a whole-screen clear:
/// red plus green plus a third of blue, truncated to a byte.
pub open spec fn spec_col_to_bright(c: Color565) -> u8 {
    (spec_red(c) + spec_green(c) + spec_blue(c) / 3) as u8
}

impl Color565 {
    /// Wrap a raw RGB565 word.
    pub fn new(raw: u16) -> (r: Self)
        ensures
            r.raw == raw,
    {
        Color565 { raw }
    }

    /// The red channel (5 bits).
    pub fn r(self) -> (r: u8)
        ensures
            r == spec_red(self),
    {
        ((self.raw >> 11) & 0x1F) as u8
    }

    /// The green channel (6 bits).
    pub fn g(self) -> (r: u8)
        ensures
            r == spec_green(self),
    {
        ((self.raw >> 5) & 0x3F) as u8
    }

    /// The blue channel (5 bits).
    pub fn b(self) -> (r: u8)
        ensures
            r == spec_blue(self),
    {
        (self.raw & 0x1F) as u8
    }
}

/// Reduce a color to the brightness byte used by whole-screen clears.
pub fn col_to_bright(color: Color565) -> (r: u8)
    ensures
        r == spec_col_to_bright(color),
{
    let sum: u16 = (color.r() as u16) + (color.g() as u16) + (color.b() as u16) / 3;
    #[verifier::truncate]
    (sum as u8)
}

} // verus!

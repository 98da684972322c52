//! Packed color values.
//!
//! A color is one 32-bit value whose four little-endian bytes are the
//! red, green, blue and alpha channels, in that order — the layout the
//! GPU reads as a normalized 8-bit-per-channel attribute.

use vstd::prelude::*;

verus! {

/// A packed RGBA color: bytes `[r, g, b, a]` in little-endian order.
#[derive(Clone, Copy, Debug, PartialEq, Eq, Structural)]
pub struct Color(pub u32);

impl Color {
    /// Pack four channels; the stored value has `r` as its lowest byte
    /// and `a` as its highest.
    pub fn from_rgba(r: u8, g: u8, b: u8, a: u8) -> (c: Color)
        ensures
            c.0 == r as u32 + g as u32 * 0x100 + b as u32 * 0x10000 + a as u32 * 0x1000000,
    {
        Color(r as u32 + g as u32 * 0x100 + b as u32 * 0x10000 + a as u32 * 0x1000000)
    }

    /// Pack three channels with a fully opaque alpha.
    pub fn from_rgb(r: u8, g: u8, b: u8) -> (c: Color)
        ensures
            c.0 == r as u32 + g as u32 * 0x100 + b as u32 * 0x10000 + 0xff000000u32,
    {
        Color::from_rgba(r, g, b, 0xff)
    }
}

} // verus!

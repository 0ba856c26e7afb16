//! RGBA colors in fixed point, each channel in [0.0, 1.0].

use vstd::prelude::*;

use crate::math::FX_ONE;

verus! {

/// An RGBA color; channels are fixed-point values with `FX_ONE` as full
/// intensity.
#[derive(Debug, Clone, Copy, PartialEq, Eq, Structural)]
pub struct Color {
    pub r: i64,
    pub g: i64,
    pub b: i64,
    pub a: i64,
}

impl Color {
    /// Builds a color from its channels.
    pub fn new(r: i64, g: i64, b: i64, a: i64) -> (c: Color)
        ensures
            c == (Color { r, g, b, a }),
    {
        Color { r, g, b, a }
    }

    /// Opaque red.
    pub fn red() -> (c: Color)
        ensures
            c == (Color { r: FX_ONE as i64, g: 0, b: 0, a: FX_ONE as i64 }),
    {
        Color { r: FX_ONE, g: 0, b: 0, a: FX_ONE }
    }

    /// Opaque green.
    pub fn green() -> (c: Color)
        ensures
            c == (Color { r: 0, g: FX_ONE as i64, b: 0, a: FX_ONE as i64 }),
    {
        Color { r: 0, g: FX_ONE, b: 0, a: FX_ONE }
    }

    /// Opaque blue.
    pub fn blue() -> (c: Color)
        ensures
            c == (Color { r: 0, g: 0, b: FX_ONE as i64, a: FX_ONE as i64 }),
    {
        Color { r: 0, g: 0, b: FX_ONE, a: FX_ONE }
    }

    /// Opaque black.
    pub fn black() -> (c: Color)
        ensures
            c == (Color { r: 0, g: 0, b: 0, a: FX_ONE as i64 }),
    {
        Color { r: 0, g: 0, b: 0, a: FX_ONE }
    }

    /// Opaque white.
    pub fn white() -> (c: Color)
        ensures
            c == (Color { r: FX_ONE as i64, g: FX_ONE as i64, b: FX_ONE as i64, a: FX_ONE as i64 }),
    {
        Color { r: FX_ONE, g: FX_ONE, b: FX_ONE, a: FX_ONE }
    }
}

impl Default for Color {
    /// The default color is opaque white.
    fn default() -> (c: Color)
        ensures
            c == (Color { r: FX_ONE as i64, g: FX_ONE as i64, b: FX_ONE as i64, a: FX_ONE as i64 }),
    {
        Color { r: FX_ONE, g: FX_ONE, b: FX_ONE, a: FX_ONE }
    }
}

} // verus!

//! Premultiplied sRGBA colors, as the palettes and widgets store them.

use vstd::prelude::*;

verus! {

/// A premultiplied sRGBA color with one byte per channel.
///
/// Two colors are equal when all four channels are equal.
#[derive(Clone, Copy, Debug, Default, PartialEq, Eq, Hash, Structural)]
pub struct Color32 {
    pub r: u8,
    pub g: u8,
    pub b: u8,
    pub a: u8,
}

impl Color32 {
    /// Fully transparent black.
    #[verifier::allow_in_spec]
    pub fn transparent() -> Color32
        returns
            (Color32 { r: 0, g: 0, b: 0, a: 0 }),
    {
        Color32 { r: 0, g: 0, b: 0, a: 0 }
    }

    /// Opaque black.
    #[verifier::allow_in_spec]
    pub fn black() -> Color32
        returns
            (Color32 { r: 0, g: 0, b: 0, a: 255 }),
    {
        Color32 { r: 0, g: 0, b: 0, a: 255 }
    }

    /// Opaque white.
    #[verifier::allow_in_spec]
    pub fn white() -> Color32
        returns
            (Color32 { r: 255, g: 255, b: 255, a: 255 }),
    {
        Color32 { r: 255, g: 255, b: 255, a: 255 }
    }

    /// Opaque red.
    #[verifier::allow_in_spec]
    pub fn red() -> Color32
        returns
            (Color32 { r: 255, g: 0, b: 0, a: 255 }),
    {
        Color32 { r: 255, g: 0, b: 0, a: 255 }
    }

    /// Opaque green.
    #[verifier::allow_in_spec]
    pub fn green() -> Color32
        returns
            (Color32 { r: 0, g: 255, b: 0, a: 255 }),
    {
        Color32 { r: 0, g: 255, b: 0, a: 255 }
    }

    /// Opaque blue.
    #[verifier::allow_in_spec]
    pub fn blue() -> Color32
        returns
            (Color32 { r: 0, g: 0, b: 255, a: 255 }),
    {
        Color32 { r: 0, g: 0, b: 255, a: 255 }
    }

    /// The color with the given premultiplied channels.
    pub fn from_rgba_premultiplied(r: u8, g: u8, b: u8, a: u8) -> (c: Color32)
        ensures
            c == (Color32 { r, g, b, a }),
    {
        Color32 { r, g, b, a }
    }

    /// The opaque color with the given channels.
    pub fn from_rgb(r: u8, g: u8, b: u8) -> (c: Color32)
        ensures
            c == (Color32 { r, g, b, a: 255 }),
    {
        Color32 { r, g, b, a: 255 }
    }

    /// Black at the given opacity.
    pub open spec fn from_black_alpha_spec(a: u8) -> Color32 {
        Color32 { r: 0, g: 0, b: 0, a }
    }

    /// Black at the given opacity: the darkening tint of overlays.
    pub fn from_black_alpha(a: u8) -> (c: Color32)
        ensures
            c == Color32::from_black_alpha_spec(a),
    {
        Color32 { r: 0, g: 0, b: 0, a }
    }

    /// Red channel.
    pub fn r(&self) -> (v: u8)
        ensures
            v == self.r,
    {
        self.r
    }

    /// Green channel.
    pub fn g(&self) -> (v: u8)
        ensures
            v == self.g,
    {
        self.g
    }

    /// Blue channel.
    pub fn b(&self) -> (v: u8)
        ensures
            v == self.b,
    {
        self.b
    }

    /// Alpha channel.
    pub fn a(&self) -> (v: u8)
        ensures
            v == self.a,
    {
        self.a
    }
}

} // verus!

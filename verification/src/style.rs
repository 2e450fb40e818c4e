//! Colour and text alignment.

use vstd::prelude::*;

verus! {

/// A colour of four 8-bit channels.
#[derive(Clone, Copy, Debug, PartialEq, Eq, Structural)]
pub struct Color {
    pub r: u8,
    pub g: u8,
    pub b: u8,
    pub a: u8,
}

/// How a run of text is placed on its line.
#[derive(Clone, Copy, Debug, PartialEq, Eq, Structural)]
pub enum TextAlignment {
    Left,
    Center,
    Right,
    Justify,
}

impl Color {
    /// Opaque black, the colour that `default` gives.
    pub open spec fn black() -> Color {
        Color { r: 0, g: 0, b: 0, a: 255 }
    }
}

impl Default for Color {
    fn default() -> (color: Color)
        ensures
            color == Color::black(),
    {
        Color { r: 0, g: 0, b: 0, a: 255 }
    }
}

impl Default for TextAlignment {
    fn default() -> (alignment: TextAlignment)
        ensures
            alignment == TextAlignment::Left,
    {
        TextAlignment::Left
    }
}

} // verus!

use vstd::prelude::*;

verus! {

/// An RGB color with an optional alpha channel, one byte per channel.
///
/// An absent alpha means that the color carries no alpha information; it is
/// not the same as a fully opaque alpha of 255.
#[derive(Copy, Clone, Debug, PartialEq, Eq, PartialOrd, Ord, Hash, Structural)]
pub struct HexColor {
    /// The red channel.
    pub r: u8,
    /// The green channel.
    pub g: u8,
    /// The blue channel.
    pub b: u8,
    /// The alpha channel, when the color has one.
    pub a: Option<u8>,
}

impl HexColor {
    /// Builds a color without alpha; the same as [`HexColor::rgb`].
    pub fn new(r: u8, g: u8, b: u8) -> (c: HexColor)
        ensures
            c == (HexColor { r, g, b, a: None }),
    {
        HexColor::rgb(r, g, b)
    }

    /// Builds a color from its red, green and blue channels, without alpha.
    pub fn rgb(r: u8, g: u8, b: u8) -> (c: HexColor)
        ensures
            c == (HexColor { r, g, b, a: None }),
    {
        HexColor { r, g, b, a: None }
    }

    /// Builds a color from its red, green, blue and alpha channels; the alpha is
    /// always present.
    pub fn rgba(r: u8, g: u8, b: u8, a: u8) -> (c: HexColor)
        ensures
            c == (HexColor { r, g, b, a: Some(a) }),
    {
        HexColor { r, g, b, a: Some(a) }
    }
}

impl Default for HexColor {
    /// Black, without alpha.
    fn default() -> (c: HexColor)
        ensures
            c == (HexColor { r: 0, g: 0, b: 0, a: None }),
    {
        HexColor::rgb(0, 0, 0)
    }
}

} // verus!

//! Theme colours as the style file gives them.
use vstd::prelude::*;
use crate::model::RgbaColor;

verus! {

/// A colour of the style file; the alpha channel defaults to opaque.
#[derive(Debug, Clone, Copy, PartialEq, Eq, Structural)]
pub struct ColorSpec {
    pub r: u8,
    pub g: u8,
    pub b: u8,
    pub a: u8,
}

impl ColorSpec {
    /// The alpha channel that a colour without one takes.
    pub fn default_alpha() -> (a: u8)
        ensures
            a == 255,
    {
        255
    }

    pub fn rgb(r: u8, g: u8, b: u8) -> (c: Self)
        ensures
            c == (ColorSpec { r, g, b, a: 255 }),
    {
        ColorSpec { r, g, b, a: 255 }
    }

    pub fn rgba(r: u8, g: u8, b: u8, a: u8) -> (c: Self)
        ensures
            c == (ColorSpec { r, g, b, a }),
    {
        ColorSpec { r, g, b, a }
    }

    /// The same four channels as a map colour.
    pub fn to_color(self) -> (c: RgbaColor)
        ensures
            c == (RgbaColor { r: self.r, g: self.g, b: self.b, a: self.a }),
    {
        RgbaColor::rgba(self.r, self.g, self.b, self.a)
    }
}

/// The colours of the terrain layer, from deep water to snow.
#[derive(Debug, Clone, Copy, PartialEq, Eq, Structural)]
pub struct TerrainPalette {
    pub water_light: ColorSpec,
    pub water_dark: ColorSpec,
    pub land_low: ColorSpec,
    pub land_mid: ColorSpec,
    pub land_high: ColorSpec,
    pub snow: ColorSpec,
}

} // verus!

//! The two colours a square can have.

use vstd::prelude::*;

verus! {

/// A solid colour by its red, green and blue parts.
#[derive(Clone, Copy, Debug, PartialEq, Eq, Structural)]
pub struct Rgb {
    pub r: u8,
    pub g: u8,
    pub b: u8,
}

/// Selects one of the two squares.
#[derive(Clone, Copy, Debug, PartialEq, Eq, Structural)]
pub enum TextureColor {
    Green,
    Blue,
}

impl TextureColor {
    /// The solid colour that a square with this tag is filled with.
    pub open spec fn spec_rgb(self) -> Rgb {
        match self {
            TextureColor::Green => Rgb { r: 0, g: 255, b: 0 },
            TextureColor::Blue => Rgb { r: 0, g: 0, b: 255 },
        }
    }

    /// The tag of the square shown in a phase: green while `green` holds,
    /// blue otherwise.
    pub open spec fn spec_for_phase(green: bool) -> TextureColor {
        if green {
            TextureColor::Green
        } else {
            TextureColor::Blue
        }
    }

    /// The solid colour that a square with this tag is filled with.
    #[verifier::when_used_as_spec(spec_rgb)]
    pub fn rgb(self) -> (fill: Rgb)
        ensures
            fill == self.spec_rgb(),
    {
        match self {
            TextureColor::Green => Rgb { r: 0, g: 255, b: 0 },
            TextureColor::Blue => Rgb { r: 0, g: 0, b: 255 },
        }
    }

    /// The tag of the square shown in a phase.
    #[verifier::when_used_as_spec(spec_for_phase)]
    pub fn for_phase(green: bool) -> (color: TextureColor)
        ensures
            color == TextureColor::spec_for_phase(green),
    {
        if green {
            TextureColor::Green
        } else {
            TextureColor::Blue
        }
    }
}

} // verus!

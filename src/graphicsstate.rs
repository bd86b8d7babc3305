//! Types for representing details in the graphics state.

use vstd::prelude::*;

verus! {

/// Line join styles.
#[derive(Clone, Copy, Debug, PartialEq, Eq, Structural)]
pub enum JoinStyle {
    /// The outer edges continue until they meet.
    Miter,
    /// The lines are joined by a circle of line-width diameter.
    Round,
    /// End the lines as with `CapStyle::Butt` and fill the resulting gap
    /// with a triangle.
    Bevel,
}

/// Line cap styles.
#[derive(Clone, Copy, Debug, PartialEq, Eq, Structural)]
pub enum CapStyle {
    /// Truncate the line squarely through the endpoint.
    Butt,
    /// Include a circle of line-width diameter around the endpoint.
    Round,
    /// Include a square around the endpoint, so the line continues for half
    /// a line-width through the endpoint.
    ProjectingSquare,
}

/// Any color (or grayscale) value that a page can be painted with.
#[derive(Clone, Copy, Debug, PartialEq, Eq, Structural)]
pub enum Color {
    /// A color in the RGB color space.
    RGB { red: u8, green: u8, blue: u8 },
    /// A gray level.
    Gray { gray: u8 },
}

impl Color {
    /// A color from the RGB color space.
    pub fn rgb(red: u8, green: u8, blue: u8) -> (r: Self)
        ensures
            r == (Color::RGB { red, green, blue }),
    {
        Color::RGB { red, green, blue }
    }

    /// A grayscale color value.
    pub fn gray(gray: u8) -> (r: Self)
        ensures
            r == (Color::Gray { gray }),
    {
        Color::Gray { gray }
    }
}

} // verus!

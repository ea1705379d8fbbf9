//! The color value.

use vstd::prelude::*;

verus! {

/// A color of three 8-bit channels. Two colors are the same exactly when
/// their channels are.
#[derive(Debug, Clone, Copy, PartialEq, Eq, Hash, Structural)]
pub struct Color {
    pub r: u8,
    pub g: u8,
    pub b: u8,
}

impl Color {
    /// The color that an untouched pixel of a grid image has.
    pub open spec fn black() -> Color {
        Color { r: 0, g: 0, b: 0 }
    }

    pub fn new(r: u8, g: u8, b: u8) -> (color: Color)
        ensures
            color == (Color { r, g, b }),
    {
        Color { r, g, b }
    }
}

} // verus!

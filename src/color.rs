//! Colors as three 8-bit channels.
use vstd::prelude::*;

verus! {

/// An RGB color with one 8-bit value per channel.
#[derive(Clone, Copy, Debug, PartialEq, Eq, Structural)]
pub struct Color {
    pub r: u8,
    pub g: u8,
    pub b: u8,
}

impl Color {
    /// The color with every channel at zero.
    pub fn off() -> (c: Color)
        ensures
            c == (Color { r: 0, g: 0, b: 0 }),
    {
        Color { r: 0, g: 0, b: 0 }
    }
}

} // verus!

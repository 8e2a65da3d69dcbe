//! Fill colours of the squares.

use vstd::prelude::*;

use crate::random::random_channel;

verus! {

/// Alpha of a fully opaque colour.
pub const OPAQUE: u8 = 255;

/// A colour as four 8-bit channels.
#[derive(Clone, Copy, Debug, PartialEq, Eq, Structural)]
pub struct Color {
    pub a: u8,
    pub r: u8,
    pub g: u8,
    pub b: u8,
}

impl Color {
    /// Whether the colour hides what lies beneath it.
    pub open spec fn is_opaque(self) -> bool {
        self.a == OPAQUE
    }
}

/// The opaque colour with the given red, green and blue channels.
pub fn opaque_color(r: u8, g: u8, b: u8) -> (c: Color)
    ensures
        c == (Color { a: OPAQUE, r, g, b }),
{
    Color { a: OPAQUE, r, g, b }
}

/// An opaque colour whose red, green and blue channels are drawn one after
/// the other, each uniformly over `0..=255`.
pub fn get_random_color() -> (c: Color)
    ensures
        c.is_opaque(),
{
    let r = random_channel();
    let g = random_channel();
    let b = random_channel();
    opaque_color(r, g, b)
}

} // verus!

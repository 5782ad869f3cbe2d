//! Colours with four 8-bit channels.

use crate::math::{reverse_lerp, Lerp, Ratio};
use vstd::prelude::*;

verus! {

/// A colour with red, green, blue and alpha channels.
#[derive(Clone, Copy, Debug, PartialEq, Eq, Structural)]
pub struct Color {
    pub r: u8,
    pub g: u8,
    pub b: u8,
    pub a: u8,
}

impl Color {
    /// Black: every colour channel 0, alpha 1.
    pub fn black() -> (c: Color)
        ensures
            c == (Color { r: 0, g: 0, b: 0, a: 1 }),
    {
        Color { r: 0, g: 0, b: 0, a: 1 }
    }

    /// White on the unit scale: every channel, alpha included, is 1.
    pub fn white() -> (c: Color)
        ensures
            c == (Color { r: 1, g: 1, b: 1, a: 1 }),
    {
        Color { r: 1, g: 1, b: 1, a: 1 }
    }

    /// The red, green and blue channels, in that order.
    pub open spec fn channels(self) -> Seq<u8> {
        seq![self.r, self.g, self.b]
    }

    /// The colour between `self` and `other` at parameter `t`: each of red,
    /// green and blue is interpolated on its own by the reversed formula, and
    /// alpha is always 1.
    pub open spec fn lerp_value(self, other: Color, t: Ratio) -> Color
        recommends
            t.wf(),
    {
        Color {
            r: reverse_lerp(self.r, other.r, t),
            g: reverse_lerp(self.g, other.g, t),
            b: reverse_lerp(self.b, other.b, t),
            a: 1,
        }
    }

    /// A colour from its four channels.
    pub fn from_rgba(r: u8, g: u8, b: u8, a: u8) -> (c: Color)
        ensures
            c == (Color { r, g, b, a }),
    {
        Color { r, g, b, a }
    }

    /// A colour from its red, green and blue channels; alpha is 1.
    pub fn from_rgb(r: u8, g: u8, b: u8) -> (c: Color)
        ensures
            c == (Color { r, g, b, a: 1 }),
    {
        Color { r, g, b, a: 1 }
    }

    /// All four channels: red, green, blue, alpha.
    pub fn rgba(&self) -> (out: [u8; 4])
        ensures
            out@ == seq![self.r, self.g, self.b, self.a],
    {
        [self.r, self.g, self.b, self.a]
    }

    /// The three colour channels: red, green, blue.
    pub fn rgb(&self) -> (out: [u8; 3])
        ensures
            out@ == self.channels(),
    {
        [self.r, self.g, self.b]
    }

    /// Interpolates between `self` and `other` at parameter `t`, channel by
    /// channel; the alpha of the result is 1, whatever the alphas were.
    pub fn lerp(&self, other: Color, t: Ratio) -> (c: Color)
        requires
            t.wf(),
        ensures
            c == self.lerp_value(other, t),
    {
        Color {
            r: self.r.lerp(other.r, t),
            g: self.g.lerp(other.g, t),
            b: self.b.lerp(other.b, t),
            a: 1,
        }
    }
}

} // verus!

use vstd::prelude::*;

verus! {

/// An opaque color: red, green and blue intensities, each in `0..=255`.
#[derive(Debug, Clone, Copy, PartialEq, Eq, Structural)]
pub struct Color {
    pub r: u8,
    pub g: u8,
    pub b: u8,
}

impl Color {
    /// The color with the given channels, stored as they are.
    pub fn from_rgb(r: u8, g: u8, b: u8) -> (c: Color)
        ensures
            c.r == r,
            c.g == g,
            c.b == b,
    {
        Color { r, g, b }
    }

    /// The three channels, red first.
    pub fn to_rgb(&self) -> (t: (u8, u8, u8))
        ensures
            t == (self.r, self.g, self.b),
    {
        (self.r, self.g, self.b)
    }
}

/// The largest of the three channels: the HSV value, scaled to `0..=255`.
pub open spec fn max_channel(c: Color) -> u8 {
    if c.r >= c.g && c.r >= c.b {
        c.r
    } else if c.g >= c.b {
        c.g
    } else {
        c.b
    }
}

/// The smallest of the three channels.
pub open spec fn min_channel(c: Color) -> u8 {
    if c.r <= c.g && c.r <= c.b {
        c.r
    } else if c.g <= c.b {
        c.g
    } else {
        c.b
    }
}

} // verus!

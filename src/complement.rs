use vstd::prelude::*;
use crate::color::{max_channel, min_channel, Color};

verus! {

/// The channel-wise inversion `255 - channel`.
pub open spec fn rgb_complement_of(c: Color) -> Color {
    Color { r: (255 - c.r) as u8, g: (255 - c.g) as u8, b: (255 - c.b) as u8 }
}

/// The color whose channels are each `255` minus the input's.
pub fn rgb_complement(color: Color) -> (c: Color)
    ensures
        c == rgb_complement_of(color),
{
    Color { r: 255 - color.r, g: 255 - color.g, b: 255 - color.b }
}

/// Inverting twice in RGB space gives back the color itself.
pub proof fn lemma_rgb_complement_involution(c: Color)
    ensures
        rgb_complement_of(rgb_complement_of(c)) == c,
{
}

/// The HSV complement: the standard HSV reading of `c` with its hue turned by
/// 180 degrees, saturation and value kept, converted back exactly.
///
/// In HSV terms the largest channel is `v`, the smallest is `v - c` (with
/// chroma `c = v * s`), and the hue picks where the middle channel sits between
/// them. Turning the hue by half a circle moves it to the opposite sextant,
/// where the roles of the largest and smallest channel swap and the middle one
/// is reflected between them: every channel `x` becomes `max + min - x`.
pub open spec fn hsv_complement_of(c: Color) -> Color {
    let s = max_channel(c) + min_channel(c);
    Color { r: (s - c.r) as u8, g: (s - c.g) as u8, b: (s - c.b) as u8 }
}

fn max_of(x: u8, y: u8) -> (m: u8)
    ensures
        m == if x >= y { x } else { y },
{
    if x >= y {
        x
    } else {
        y
    }
}

fn min_of(x: u8, y: u8) -> (m: u8)
    ensures
        m == if x <= y { x } else { y },
{
    if x <= y {
        x
    } else {
        y
    }
}

/// The complement by hue rotation: the color read as HSV, its hue turned by
/// 180 degrees, saturation and value kept. Computed in integers, so no channel
/// is off by a rounding step.
pub fn hsv_complement(color: Color) -> (c: Color)
    ensures
        c == hsv_complement_of(color),
        max_channel(c) == max_channel(color),
        min_channel(c) == min_channel(color),
{
    let hi = max_of(max_of(color.r, color.g), color.b);
    let lo = min_of(min_of(color.r, color.g), color.b);
    let s: u16 = hi as u16 + lo as u16;
    let c = Color {
        r: (s - color.r as u16) as u8,
        g: (s - color.g as u16) as u8,
        b: (s - color.b as u16) as u8,
    };
    proof {
        lemma_hsv_complement_keeps_extremes(color);
    }
    c
}

/// The HSV complement keeps the largest and the smallest channel, so it keeps
/// the value and the saturation.
pub proof fn lemma_hsv_complement_keeps_extremes(c: Color)
    ensures
        max_channel(hsv_complement_of(c)) == max_channel(c),
        min_channel(hsv_complement_of(c)) == min_channel(c),
{
}

/// Turning the hue by 180 degrees twice gives back the color itself.
pub proof fn lemma_hsv_complement_involution(c: Color)
    ensures
        hsv_complement_of(hsv_complement_of(c)) == c,
{
    lemma_hsv_complement_keeps_extremes(c);
}

/// At full saturation and value (largest channel 255, smallest 0) the HSV
/// complement is the RGB inversion.
pub proof fn lemma_hsv_complement_at_full_saturation(c: Color)
    requires
        max_channel(c) == 255,
        min_channel(c) == 0,
    ensures
        hsv_complement_of(c) == rgb_complement_of(c),
{
}

} // verus!

//! A color value held as three 8-bit channels, with conversions to and from
//! hexadecimal codes, a canonical display string, and two complements: the
//! channel-wise inversion in RGB space and the 180-degree hue rotation in HSV
//! space.

pub mod color;
pub mod complement;
pub mod digits;
pub mod display;
pub mod hex;

pub use color::Color;
pub use complement::{hsv_complement, rgb_complement};
pub use hex::HexError;

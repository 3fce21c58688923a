//! The RGB status indicator.
use vstd::prelude::*;

verus! {

/// A 24-bit color, one byte per channel.
#[derive(Copy, Clone, PartialEq, Eq, Debug, Structural)]
pub struct RgbLedColor {
    pub r: u8,
    pub g: u8,
    pub b: u8,
}

impl From<u32> for RgbLedColor {
    /// The three low bytes of `x`, highest byte first: `0xRRGGBB`.
    fn from(x: u32) -> (c: Self) {
        proof {
            assert((x & 0xFF0000) >> 16 < 256 && (x & 0x00FF00) >> 8 < 256 && x & 0x0000FF < 256)
                by (bit_vector);
        }
        RgbLedColor {
            r: ((x & 0xFF0000) >> 16) as u8,
            g: ((x & 0x00FF00) >> 8) as u8,
            b: (x & 0x0000FF) as u8,
        }
    }
}

impl vstd::std_specs::convert::FromSpecImpl<u32> for RgbLedColor {
    open spec fn obeys_from_spec() -> bool {
        true
    }

    open spec fn from_spec(x: u32) -> Self {
        RgbLedColor {
            r: (((x & 0xFF0000) >> 16) as u8),
            g: (((x & 0x00FF00) >> 8) as u8),
            b: ((x & 0x0000FF) as u8),
        }
    }
}

pub trait RgbLed {
    fn set_color(&self, color: RgbLedColor);
}

} // verus!

//! Colours with exact channels, and their conversion to 8-bit pixels.
use crate::ppm::{pixel_line, push_pixel, Rgb};
use vstd::prelude::*;

verus! {

/// The largest magnitude allowed for the numerator or denominator of a channel.
pub open spec fn channel_limit() -> int {
    0x10000000000000000000000000
}

/// The real number `num / den`. A zero denominator stands for what a
/// floating-point division by zero gives: positive infinity when `num > 0`,
/// negative infinity when `num < 0`, and NaN when `num == 0`.
#[derive(Clone, Copy, Debug, PartialEq, Eq, Structural)]
pub struct Ratio {
    pub num: i128,
    pub den: i128,
}

impl Ratio {
    pub open spec fn wf(self) -> bool {
        &&& 0 <= self.den <= channel_limit()
        &&& -channel_limit() <= self.num <= channel_limit()
    }
}

/// A colour whose channels nominally lie in `[0, 1]`; values outside that
/// range are allowed and saturate when encoded.
#[derive(Clone, Copy, Debug, PartialEq, Eq, Structural)]
pub struct Color {
    pub r: Ratio,
    pub g: Ratio,
    pub b: Ratio,
}

impl Color {
    pub open spec fn wf(self) -> bool {
        self.r.wf() && self.g.wf() && self.b.wf()
    }
}

/// The byte for a channel `num / den`: the channel times 255.999, truncated
/// toward zero and saturated to `0..=255` (NaN gives 0, infinities the bounds).
pub open spec fn channel_byte(num: int, den: int) -> int {
    if num <= 0 {
        0
    } else if den == 0 {
        255
    } else if (255999 * num) / (1000 * den) >= 255 {
        255
    } else {
        (255999 * num) / (1000 * den)
    }
}

/// The pixel that encodes colour `c`.
pub open spec fn rgb_of(c: Color) -> Rgb {
    Rgb {
        r: channel_byte(c.r.num as int, c.r.den as int) as u8,
        g: channel_byte(c.g.num as int, c.g.den as int) as u8,
        b: channel_byte(c.b.num as int, c.b.den as int) as u8,
    }
}

/// Converts one channel to its byte.
pub fn to_byte(c: Ratio) -> (r: u8)
    requires
        c.wf(),
    ensures
        r as int == channel_byte(c.num as int, c.den as int),
{
    if c.num <= 0 {
        0
    } else if c.den == 0 {
        255
    } else {
        assert(0 < 255999 * (c.num as int) <= 255999 * channel_limit()) by (nonlinear_arith)
            requires
                0 < c.num <= channel_limit(),
        ;
        assert(0 < 1000 * (c.den as int) <= 1000 * channel_limit());
        let q: i128 = (255999 * c.num) / (1000 * c.den);
        if q >= 255 {
            255
        } else {
            assert(q >= 0) by (nonlinear_arith)
                requires
                    q == (255999 * (c.num as int)) / (1000 * (c.den as int)),
                    c.num > 0,
                    c.den > 0,
            ;
            q as u8
        }
    }
}

/// Converts a colour to the pixel that encodes it.
pub fn to_rgb(c: &Color) -> (r: Rgb)
    requires
        c.wf(),
    ensures
        r == rgb_of(*c),
{
    Rgb { r: to_byte(c.r), g: to_byte(c.g), b: to_byte(c.b) }
}

/// Appends the text line of one pixel of colour `pixel_color`.
pub fn write_color(out: &mut Vec<u8>, pixel_color: &Color)
    requires
        pixel_color.wf(),
    ensures
        final(out)@ == old(out)@ + pixel_line(rgb_of(*pixel_color)),
{
    let c = to_rgb(pixel_color);
    push_pixel(out, c);
}

} // verus!

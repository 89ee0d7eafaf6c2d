//! The P3 pixel-map text encoding: a three-line header followed by one
//! `r g b` line per pixel, in row-major order.
use vstd::prelude::*;

verus! {

pub const DIGIT_ZERO: u8 = 48;
pub const DIGIT_TWO: u8 = 50;
pub const DIGIT_THREE: u8 = 51;
pub const DIGIT_FIVE: u8 = 53;
pub const LETTER_P: u8 = 80;
pub const SPACE: u8 = 32;
pub const NEWLINE: u8 = 10;

/// A pixel as three 8-bit channels, ready to be written out.
#[derive(Clone, Copy, Debug, PartialEq, Eq, Structural)]
pub struct Rgb {
    pub r: u8,
    pub g: u8,
    pub b: u8,
}

/// The decimal digits of `n`, most significant first, without leading zeros.
pub open spec fn decimal(n: nat) -> Seq<u8>
    decreases n,
{
    if n < 10 {
        seq![(DIGIT_ZERO + n) as u8]
    } else {
        decimal(n / 10).push((DIGIT_ZERO + n % 10) as u8)
    }
}

/// `P3`, the width and height, and the largest channel value, one per line.
pub open spec fn header_text(width: nat, height: nat) -> Seq<u8> {
    seq![LETTER_P, DIGIT_THREE, NEWLINE] + decimal(width) + seq![SPACE] + decimal(height) + seq![
        NEWLINE,
        DIGIT_TWO,
        DIGIT_FIVE,
        DIGIT_FIVE,
        NEWLINE,
    ]
}

/// One pixel as its three channels in decimal, separated by single spaces.
pub open spec fn pixel_line(c: Rgb) -> Seq<u8> {
    decimal(c.r as nat) + seq![SPACE] + decimal(c.g as nat) + seq![SPACE] + decimal(c.b as nat)
        + seq![NEWLINE]
}

/// The pixel lines of `pixels`, in order.
pub open spec fn body_text(pixels: Seq<Rgb>) -> Seq<u8>
    decreases pixels.len(),
{
    if pixels.len() == 0 {
        Seq::empty()
    } else {
        body_text(pixels.drop_last()) + pixel_line(pixels.last())
    }
}

/// The whole image file for a grid of `width * height` pixels in row-major order.
pub open spec fn ppm_text(width: nat, height: nat, pixels: Seq<Rgb>) -> Seq<u8> {
    header_text(width, height) + body_text(pixels)
}

/// Appends the decimal digits of `n`.
pub fn push_decimal(out: &mut Vec<u8>, n: u64)
    ensures
        final(out)@ == old(out)@ + decimal(n as nat),
    decreases n,
{
    if n >= 10 {
        push_decimal(out, n / 10);
    }
    out.push(DIGIT_ZERO + (n % 10) as u8);
    assert(n >= 10 ==> decimal(n as nat) == decimal((n / 10) as nat).push((DIGIT_ZERO + n % 10) as u8));
    assert(final(out)@ =~= old(out)@ + decimal(n as nat));
}

/// Appends the header of a `width` by `height` image.
pub fn push_header(out: &mut Vec<u8>, width: u64, height: u64)
    ensures
        final(out)@ == old(out)@ + header_text(width as nat, height as nat),
{
    let ghost start = out@;
    out.push(LETTER_P);
    out.push(DIGIT_THREE);
    out.push(NEWLINE);
    push_decimal(out, width);
    out.push(SPACE);
    push_decimal(out, height);
    out.push(NEWLINE);
    out.push(DIGIT_TWO);
    out.push(DIGIT_FIVE);
    out.push(DIGIT_FIVE);
    out.push(NEWLINE);
    assert(out@ =~= start + header_text(width as nat, height as nat));
}

/// Appends one pixel line: the three channels in decimal, then a newline.
pub fn push_pixel(out: &mut Vec<u8>, c: Rgb)
    ensures
        final(out)@ == old(out)@ + pixel_line(c),
{
    let ghost start = out@;
    push_decimal(out, c.r as u64);
    out.push(SPACE);
    push_decimal(out, c.g as u64);
    out.push(SPACE);
    push_decimal(out, c.b as u64);
    out.push(NEWLINE);
    assert(out@ =~= start + pixel_line(c));
}

/// Encodes a `width` by `height` grid of pixels, given in row-major order.
pub fn encode_ppm(width: u64, height: u64, pixels: &Vec<Rgb>) -> (r: Vec<u8>)
    requires
        pixels@.len() == width * height,
    ensures
        r@ == ppm_text(width as nat, height as nat, pixels@),
{
    let mut out: Vec<u8> = Vec::new();
    push_header(&mut out, width, height);
    let mut k: usize = 0;
    while k < pixels.len()
        invariant
            k <= pixels@.len(),
            out@ == header_text(width as nat, height as nat) + body_text(pixels@.take(k as int)),
        decreases pixels@.len() - k,
    {
        push_pixel(&mut out, pixels[k]);
        assert(pixels@.take(k + 1).drop_last() =~= pixels@.take(k as int));
        k = k + 1;
        assert(out@ =~= header_text(width as nat, height as nat) + body_text(pixels@.take(k as int)));
    }
    assert(pixels@.take(k as int) =~= pixels@);
    out
}

} // verus!

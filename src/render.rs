//! Whole-image rendering: every pixel in row-major order, top row first,
//! each row left to right, encoded as a P3 pixel map.
use crate::camera::{camera_origin, camera_ray, in_units, pixel_center, sub3};
use crate::color::{rgb_of, write_color};
use crate::ppm::{body_text, header_text, ppm_text, push_header, Rgb};
use crate::shade::{gradient_color_of, ray_color, shade_gradient, sky_color_of};
use vstd::arithmetic::div_mod::lemma_fundamental_div_mod_converse;
use vstd::prelude::*;

verus! {

/// The pixels of a `w` by `h` image in gradient mode, in row-major order.
pub open spec fn gradient_pixels(w: nat, h: nat) -> Seq<Rgb> {
    Seq::new(w * h, |k: int| rgb_of(gradient_color_of(k % w as int, k / w as int, w as int, h as int)))
}

/// The sky colour seen through the centre of pixel `(i, j)`.
pub open spec fn sky_pixel(i: int, j: int, w: int, h: int) -> Rgb {
    rgb_of(sky_color_of(in_units(sub3(pixel_center(i, j, w, h), camera_origin()), h)))
}

/// The pixels of a `w` by `h` image seen through the camera, in row-major order.
pub open spec fn sky_pixels(w: nat, h: nat) -> Seq<Rgb> {
    Seq::new(w * h, |k: int| sky_pixel(k % w as int, k / w as int, w as int, h as int))
}

/// Pixel `(i, j)` stands at index `j * w + i` of a row-major grid.
proof fn lemma_row_major(i: int, j: int, w: int, h: int)
    requires
        0 <= i < w,
        0 <= j < h,
    ensures
        (j * w + i) % w == i,
        (j * w + i) / w == j,
        0 <= j * w + i < w * h,
{
    lemma_fundamental_div_mod_converse(j * w + i, w, j, i);
    assert(0 <= j * w + i < w * h) by (nonlinear_arith)
        requires
            0 <= i < w,
            0 <= j < h,
    ;
}

/// The P3 image of a `image_width` by `image_height` gradient.
pub fn output_ppm_image(image_width: usize, image_height: usize) -> (r: Vec<u8>)
    requires
        image_width * image_height <= usize::MAX,
    ensures
        r@ == ppm_text(
            image_width as nat,
            image_height as nat,
            gradient_pixels(image_width as nat, image_height as nat),
        ),
{
    let ghost w = image_width as int;
    let ghost h = image_height as int;
    let ghost pixels = gradient_pixels(image_width as nat, image_height as nat);
    let mut out: Vec<u8> = Vec::new();
    push_header(&mut out, image_width as u64, image_height as u64);
    let mut j: usize = 0;
    while j < image_height
        invariant
            w == image_width as int,
            h == image_height as int,
            j <= h,
            w * h <= usize::MAX,
            pixels == gradient_pixels(image_width as nat, image_height as nat),
            out@ == header_text(w as nat, h as nat) + body_text(pixels.take(j * w)),
        decreases h - j,
    {
        let mut i: usize = 0;
        while i < image_width
            invariant
                w == image_width as int,
                h == image_height as int,
                i <= w,
                j < h,
                w * h <= usize::MAX,
                pixels == gradient_pixels(image_width as nat, image_height as nat),
                out@ == header_text(w as nat, h as nat) + body_text(pixels.take(j * w + i)),
            decreases w - i,
        {
            let color = shade_gradient(i as u64, j as u64, image_width as u64, image_height as u64);
            write_color(&mut out, &color);
            proof {
                let k = j * w + i;
                lemma_row_major(i as int, j as int, w, h);
                assert(pixels.take(k + 1).drop_last() =~= pixels.take(k));
                assert(pixels.take(k + 1).last() == pixels[k]);
            }
            i = i + 1;
        }
        assert((j + 1) * w == j * w + w) by (nonlinear_arith);
        j = j + 1;
    }
    assert(j * w == w * h) by (nonlinear_arith)
        requires
            j == h,
    ;
    assert(pixels.take(j * w) =~= pixels);
    out
}

/// The P3 image of a `pixel_width` by `pixel_height` view of the sky, one ray
/// per pixel through the pixel's centre.
pub fn ray_output_ppm_image(pixel_width: usize, pixel_height: usize) -> (r: Vec<u8>)
    requires
        pixel_width <= u32::MAX,
        pixel_height <= u32::MAX,
        pixel_width * pixel_height <= usize::MAX,
    ensures
        r@ == ppm_text(
            pixel_width as nat,
            pixel_height as nat,
            sky_pixels(pixel_width as nat, pixel_height as nat),
        ),
{
    let ghost w = pixel_width as int;
    let ghost h = pixel_height as int;
    let ghost pixels = sky_pixels(pixel_width as nat, pixel_height as nat);
    let mut out: Vec<u8> = Vec::new();
    push_header(&mut out, pixel_width as u64, pixel_height as u64);
    let mut j: usize = 0;
    while j < pixel_height
        invariant
            w == pixel_width as int,
            h == pixel_height as int,
            j <= h,
            w <= u32::MAX,
            h <= u32::MAX,
            w * h <= usize::MAX,
            pixels == sky_pixels(pixel_width as nat, pixel_height as nat),
            out@ == header_text(w as nat, h as nat) + body_text(pixels.take(j * w)),
        decreases h - j,
    {
        let mut i: usize = 0;
        while i < pixel_width
            invariant
                w == pixel_width as int,
                h == pixel_height as int,
                i <= w,
                j < h,
                w <= u32::MAX,
                h <= u32::MAX,
                w * h <= usize::MAX,
                pixels == sky_pixels(pixel_width as nat, pixel_height as nat),
                out@ == header_text(w as nat, h as nat) + body_text(pixels.take(j * w + i)),
            decreases w - i,
        {
            let ray = camera_ray(i as u64, j as u64, pixel_width as u64, pixel_height as u64);
            let color = ray_color(&ray);
            write_color(&mut out, &color);
            proof {
                let k = j * w + i;
                lemma_row_major(i as int, j as int, w, h);
                assert(pixels.take(k + 1).drop_last() =~= pixels.take(k));
                assert(pixels.take(k + 1).last() == pixels[k]);
            }
            i = i + 1;
        }
        assert((j + 1) * w == j * w + w) by (nonlinear_arith);
        j = j + 1;
    }
    assert(j * w == w * h) by (nonlinear_arith)
        requires
            j == h,
    ;
    assert(pixels.take(j * w) =~= pixels);
    out
}

} // verus!

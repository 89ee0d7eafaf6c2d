use raytracer::camera::{camera_ray, Ray};
use raytracer::vector::Point3;
use raytracer::color::{to_byte, to_rgb, write_color, Color, Ratio};
use raytracer::ppm::{encode_ppm, push_decimal, push_header, push_pixel, Rgb};
use raytracer::render::{output_ppm_image, ray_output_ppm_image};
use raytracer::shade::{ray_color, shade_gradient};

fn text(bytes: Vec<u8>) -> String {
    String::from_utf8(bytes).unwrap()
}

fn ratio(num: i128, den: i128) -> Ratio {
    Ratio { num, den }
}

fn point(x: i64, y: i64, z: i64, den: i64) -> Point3 {
    Point3 { x, y, z, den }
}

#[test]
fn gradient_image_two_by_two() {
    let out = text(output_ppm_image(2, 2));
    assert_eq!(out, "P3\n2 2\n255\n0 0 0\n255 0 0\n0 255 0\n255 255 0\n");
    assert!(out.starts_with("P3\n2 2\n255\n"));
    let lines: Vec<&str> = out.lines().collect();
    assert_eq!(lines.len(), 3 + 4);
    assert_eq!(lines[3], "0 0 0");
    assert_eq!(lines[6], "255 255 0");
}

#[test]
fn gradient_image_single_column_has_nan_red() {
    assert_eq!(text(output_ppm_image(1, 2)), "P3\n1 2\n255\n0 0 0\n0 255 0\n");
}

#[test]
fn gradient_image_empty() {
    assert_eq!(text(output_ppm_image(0, 3)), "P3\n0 3\n255\n");
    assert_eq!(text(output_ppm_image(4, 0)), "P3\n4 0\n255\n");
}

#[test]
fn gradient_image_line_count() {
    let out = text(output_ppm_image(256, 256));
    assert_eq!(out.lines().count(), 3 + 256 * 256);
    assert!(out.starts_with("P3\n256 256\n255\n0 0 0\n1 0 0\n"));
    assert!(out.ends_with("\n255 255 0\n"));
}

#[test]
fn sky_image_two_by_two() {
    assert_eq!(
        text(ray_output_ppm_image(2, 2)),
        "P3\n2 2\n255\n170 204 255\n170 204 255\n213 230 255\n213 230 255\n"
    );
}

#[test]
fn sky_image_line_count() {
    let out = text(ray_output_ppm_image(3, 5));
    assert_eq!(out.lines().count(), 3 + 15);
}

#[test]
fn shade_gradient_corners() {
    let first = shade_gradient(0, 0, 256, 256);
    assert_eq!(first, Color { r: ratio(0, 255), g: ratio(0, 255), b: ratio(0, 1) });
    assert_eq!(to_rgb(&first), Rgb { r: 0, g: 0, b: 0 });
    let last = shade_gradient(255, 255, 256, 256);
    assert_eq!(last, Color { r: ratio(255, 255), g: ratio(255, 255), b: ratio(0, 1) });
    assert_eq!(to_rgb(&last), Rgb { r: 255, g: 255, b: 0 });
}

#[test]
fn shade_gradient_middle() {
    assert_eq!(to_rgb(&shade_gradient(128, 64, 256, 256)), Rgb { r: 128, g: 64, b: 0 });
}

#[test]
fn ray_color_straight_up_is_sky_blue() {
    let ray = Ray::new(point(0, 0, 0, 1), point(0, 1, 0, 1));
    let c = ray_color(&ray);
    assert_eq!(c.r.num * 2, c.r.den);
    assert_eq!(c.g.num * 10, c.g.den * 7);
    assert_eq!(c.b.num, c.b.den);
    assert_eq!(to_rgb(&c), Rgb { r: 127, g: 179, b: 255 });
}

#[test]
fn ray_color_straight_down_is_white() {
    let ray = Ray::new(point(0, 0, 0, 1), point(0, -1, 0, 1));
    let c = ray_color(&ray);
    assert_eq!(c.r.num, c.r.den);
    assert_eq!(c.g.num, c.g.den);
    assert_eq!(to_rgb(&c), Rgb { r: 255, g: 255, b: 255 });
}

#[test]
fn ray_color_zero_direction_is_midway() {
    let ray = Ray::new(point(0, 0, 0, 1), point(0, 0, 0, 1));
    assert_eq!(to_rgb(&ray_color(&ray)), Rgb { r: 191, g: 217, b: 255 });
}

#[test]
fn ray_color_divides_by_dot_product() {
    // (0, 1/2, 0) has dot product 1/4, so its y component becomes 2 and
    // the blend runs past sky blue: red 1/4, green 11/20.
    let ray = Ray::new(point(0, 0, 0, 1), point(0, 1, 0, 2));
    assert_eq!(to_rgb(&ray_color(&ray)), Rgb { r: 63, g: 140, b: 255 });
}

#[test]
fn camera_ray_corners() {
    let top_left = camera_ray(0, 0, 256, 256);
    assert_eq!(top_left.origin(), point(0, 0, 0, 256));
    assert_eq!(top_left.direction(), point(-255, 255, -256, 256));
    assert!(top_left.direction().y > 0);
    let bottom_right = camera_ray(255, 255, 256, 256);
    assert_eq!(bottom_right.direction(), point(255, -255, -256, 256));
    assert!(bottom_right.direction().y < 0);
}

#[test]
fn camera_pixel_steps() {
    // One pixel step is 2/h in x and -2/h in y: the viewport's width 2w/h
    // over w and its height 2 over h.
    let a = camera_ray(10, 20, 400, 200).direction();
    let b = camera_ray(11, 20, 400, 200).direction();
    let c = camera_ray(10, 21, 400, 200).direction();
    assert_eq!((b.x - a.x, b.y - a.y, b.z - a.z, a.den), (2, 0, 0, 200));
    assert_eq!((c.x - a.x, c.y - a.y, c.z - a.z), (0, -2, 0));
    assert_eq!((b.x - a.x) * 400, 2 * 400);
}

#[test]
fn encode_color_truncates() {
    let c = Color { r: ratio(1, 1), g: ratio(0, 1), b: ratio(1, 2) };
    assert_eq!(to_rgb(&c), Rgb { r: 255, g: 0, b: 127 });
    let mut out = Vec::new();
    write_color(&mut out, &c);
    assert_eq!(text(out), "255 0 127\n");
}

#[test]
fn encode_channel_saturates() {
    assert_eq!(to_byte(ratio(3, 2)), 255);
    assert_eq!(to_byte(ratio(-1, 2)), 0);
    assert_eq!(to_byte(ratio(1, 0)), 255);
    assert_eq!(to_byte(ratio(-1, 0)), 0);
    assert_eq!(to_byte(ratio(0, 0)), 0);
    assert_eq!(to_byte(ratio(999, 1000)), 255);
    assert_eq!(to_byte(ratio(1, 256)), 0);
    assert_eq!(to_byte(ratio(1, 255)), 1);
}

#[test]
fn decimal_digits() {
    let mut out = Vec::new();
    push_decimal(&mut out, 0);
    push_decimal(&mut out, 7);
    push_decimal(&mut out, 1234567890);
    assert_eq!(text(out), "071234567890");
}

#[test]
fn header_and_pixels() {
    let mut out = Vec::new();
    push_header(&mut out, 640, 480);
    push_pixel(&mut out, Rgb { r: 9, g: 10, b: 255 });
    assert_eq!(text(out), "P3\n640 480\n255\n9 10 255\n");
}

#[test]
fn encode_grid() {
    let pixels = vec![
        Rgb { r: 1, g: 2, b: 3 },
        Rgb { r: 4, g: 5, b: 6 },
        Rgb { r: 7, g: 8, b: 9 },
    ];
    assert_eq!(text(encode_ppm(3, 1, &pixels)), "P3\n3 1\n255\n1 2 3\n4 5 6\n7 8 9\n");
}

//! Points, rays, and the pinhole camera that maps a pixel to a ray.
//!
//! The camera sits at the origin, looks down the negative z axis at a
//! viewport one unit away and two units high, and keeps the viewport's
//! aspect ratio equal to the image's so that pixels are square. For an image
//! of `h` rows every point the camera derives is a multiple of `1 / h`, so the
//! derivation below works with integer triples counted in units of `1 / h`.
use crate::vector::{add_spec, fits, scale_spec, Point3};
use vstd::prelude::*;

verus! {

/// A half-line from `origin` along `direction`; the direction may be zero.
#[derive(Clone, Copy, Debug, PartialEq, Eq, Structural)]
pub struct Ray {
    origin: Point3,
    direction: Point3,
}

impl Ray {
    pub closed spec fn origin_spec(self) -> Point3 {
        self.origin
    }

    pub closed spec fn direction_spec(self) -> Point3 {
        self.direction
    }

    pub fn new(origin: Point3, direction: Point3) -> (r: Ray)
        ensures
            r.origin_spec() == origin,
            r.direction_spec() == direction,
    {
        Ray { origin, direction }
    }

    pub fn origin(&self) -> (r: Point3)
        ensures
            r == self.origin_spec(),
    {
        self.origin
    }

    pub fn direction(&self) -> (r: Point3)
        ensures
            r == self.direction_spec(),
    {
        self.direction
    }

    /// The point `origin + direction * t`, for an integer `t`.
    pub fn at(&self, t: i64) -> (r: Point3)
        requires
            fits(scale_spec(self.direction_spec().view(), t as int)),
            fits(add_spec(self.origin_spec().view(), scale_spec(self.direction_spec().view(), t as int))),
        ensures
            r.view() == add_spec(self.origin_spec().view(), scale_spec(self.direction_spec().view(), t as int)),
    {
        let step = self.direction.scale(t);
        self.origin.add(&step)
    }
}

pub open spec fn add3(a: (int, int, int), b: (int, int, int)) -> (int, int, int) {
    (a.0 + b.0, a.1 + b.1, a.2 + b.2)
}

pub open spec fn sub3(a: (int, int, int), b: (int, int, int)) -> (int, int, int) {
    (a.0 - b.0, a.1 - b.1, a.2 - b.2)
}

pub open spec fn scale3(a: (int, int, int), t: int) -> (int, int, int) {
    (a.0 * t, a.1 * t, a.2 * t)
}

pub open spec fn half3(a: (int, int, int)) -> (int, int, int) {
    (a.0 / 2, a.1 / 2, a.2 / 2)
}

/// The camera origin.
pub open spec fn camera_origin() -> (int, int, int) {
    (0, 0, 0)
}

/// The span of the viewport from left to right: its width is
/// `2 * (w / h)`, that is `2 * w` units.
pub open spec fn viewport_horizontal(w: int, h: int) -> (int, int, int) {
    (2 * w, 0, 0)
}

/// The span of the viewport from top to bottom: its height is 2, that is
/// `2 * h` units, pointing down so that rows go down the image.
pub open spec fn viewport_vertical(w: int, h: int) -> (int, int, int) {
    (0, -2 * h, 0)
}

/// The step from one pixel to the next in a row: the horizontal span over `w`.
pub open spec fn pixel_du(w: int, h: int) -> (int, int, int) {
    (2, 0, 0)
}

/// The step from one row to the next: the vertical span over `h`.
pub open spec fn pixel_dv(w: int, h: int) -> (int, int, int) {
    (0, -2, 0)
}

/// The centre of the viewport, one focal length (1, or `h` units) ahead.
pub open spec fn viewport_center(h: int) -> (int, int, int) {
    sub3(camera_origin(), (0, 0, h))
}

pub open spec fn viewport_upper_left(w: int, h: int) -> (int, int, int) {
    sub3(
        sub3(viewport_center(h), half3(viewport_horizontal(w, h))),
        half3(viewport_vertical(w, h)),
    )
}

/// The centre of the top-left pixel.
pub open spec fn first_pixel_center(w: int, h: int) -> (int, int, int) {
    add3(add3(viewport_upper_left(w, h), half3(pixel_dv(w, h))), half3(pixel_du(w, h)))
}

/// The centre of pixel `(i, j)`: column `i` from the left, row `j` from the top.
pub open spec fn pixel_center(i: int, j: int, w: int, h: int) -> (int, int, int) {
    add3(add3(first_pixel_center(w, h), scale3(pixel_du(w, h), i)), scale3(pixel_dv(w, h), j))
}

/// The point with coordinates `p` counted in units of `1 / h`.
pub open spec fn in_units(p: (int, int, int), h: int) -> Point3 {
    Point3 { x: p.0 as i64, y: p.1 as i64, z: p.2 as i64, den: h as i64 }
}

/// The ray from the camera through the centre of pixel `(i, j)` of a
/// `w` by `h` image.
pub fn camera_ray(i: u64, j: u64, w: u64, h: u64) -> (r: Ray)
    requires
        i < w <= u32::MAX,
        j < h <= u32::MAX,
    ensures
        r.origin_spec() == in_units(camera_origin(), h as int),
        r.direction_spec() == in_units(
            sub3(pixel_center(i as int, j as int, w as int, h as int), camera_origin()),
            h as int,
        ),
        r.direction_spec().wf(),
{
    let origin = Point3 { x: 0, y: 0, z: 0, den: h as i64 };
    let direction = Point3 {
        x: 2 * (i as i64) + 1 - w as i64,
        y: h as i64 - 2 * (j as i64) - 1,
        z: -(h as i64),
        den: h as i64,
    };
    Ray::new(origin, direction)
}

/// Steps between neighbouring pixel centres are `pixel_du` along a row and
/// `pixel_dv` down a column; their lengths are the viewport's width over the
/// image width and the viewport's height over the image height.
pub proof fn lemma_pixel_steps(i: int, j: int, w: int, h: int)
    requires
        w > 0,
        h > 0,
    ensures
        sub3(pixel_center(i + 1, j, w, h), pixel_center(i, j, w, h)) == pixel_du(w, h),
        sub3(pixel_center(i, j + 1, w, h), pixel_center(i, j, w, h)) == pixel_dv(w, h),
        pixel_du(w, h).0 * w == viewport_horizontal(w, h).0,
        pixel_du(w, h).1 == 0 && pixel_du(w, h).2 == 0,
        -pixel_dv(w, h).1 * h == -viewport_vertical(w, h).1,
        pixel_dv(w, h).0 == 0 && pixel_dv(w, h).2 == 0,
{
}

/// The top-left pixel looks up and left, the bottom-right one down and right,
/// and pixels placed symmetrically about the image centre look in directions
/// mirrored through the view axis.
pub proof fn lemma_pixel_extremes(i: int, j: int, w: int, h: int)
    requires
        0 <= i < w,
        0 <= j < h,
        w >= 2,
        h >= 2,
    ensures
        pixel_center(0, 0, w, h).0 < 0 < pixel_center(0, 0, w, h).1,
        pixel_center(w - 1, h - 1, w, h).1 < 0 < pixel_center(w - 1, h - 1, w, h).0,
        pixel_center(w - 1 - i, h - 1 - j, w, h).0 == -pixel_center(i, j, w, h).0,
        pixel_center(w - 1 - i, h - 1 - j, w, h).1 == -pixel_center(i, j, w, h).1,
        pixel_center(w - 1 - i, h - 1 - j, w, h).2 == pixel_center(i, j, w, h).2,
{
}

} // verus!

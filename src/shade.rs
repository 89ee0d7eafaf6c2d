//! The two shading modes: a gradient over pixel indices, and a sky gradient
//! over the direction of a camera ray.
use crate::camera::Ray;
use crate::vector::{coord_limit, unit_vector_spec, Point3};
use crate::color::{Color, Ratio};
use vstd::prelude::*;

verus! {

/// The colour of pixel `(i, j)` in gradient mode: red grows from 0 to 1
/// across a row, green from 0 to 1 down a column, blue is 0.
pub open spec fn gradient_color_of(i: int, j: int, w: int, h: int) -> Color {
    Color {
        r: Ratio { num: i as i128, den: (w - 1) as i128 },
        g: Ratio { num: j as i128, den: (h - 1) as i128 },
        b: Ratio { num: 0, den: 1 },
    }
}

/// The gradient-mode colour of pixel `(i, j)` of a `w` by `h` image.
pub fn shade_gradient(i: u64, j: u64, w: u64, h: u64) -> (r: Color)
    requires
        i < w,
        j < h,
    ensures
        r == gradient_color_of(i as int, j as int, w as int, h as int),
        r.wf(),
{
    Color {
        r: Ratio { num: i as i128, den: (w - 1) as i128 },
        g: Ratio { num: j as i128, den: (h - 1) as i128 },
        b: Ratio { num: 0, den: 1 },
    }
}

/// The y component of `unit_vector(d)`, as a numerator and a denominator.
pub open spec fn unit_y(d: Point3) -> (int, int) {
    let u = unit_vector_spec(d.view());
    (u.1, u.3)
}

/// The sky colour seen along direction `d`: with `t = unit_y(d) / 2 + 1/2`,
/// white `(1, 1, 1)` blended into sky blue `(1/2, 7/10, 1)` by `t`, that is
/// `(1 - t/2, 1 - 3t/10, 1)`.
pub open spec fn sky_color_of(d: Point3) -> Color {
    let (p, q) = unit_y(d);
    let t_num = p + q;
    let t_den = 2 * q;
    Color {
        r: Ratio { num: (2 * t_den - t_num) as i128, den: (2 * t_den) as i128 },
        g: Ratio { num: (10 * t_den - 3 * t_num) as i128, den: (10 * t_den) as i128 },
        b: Ratio { num: 1, den: 1 },
    }
}

/// The colour seen along `ray`, which depends on its direction alone.
pub fn ray_color(ray: &Ray) -> (r: Color)
    requires
        ray.direction_spec().wf(),
    ensures
        r == sky_color_of(ray.direction_spec()),
        r.wf(),
{
    let d = ray.direction();
    let x = d.x as i128;
    let y = d.y as i128;
    let z = d.z as i128;
    let den = d.den as i128;
    let ghost lim = coord_limit();
    assert(x * x <= lim * lim && y * y <= lim * lim && z * z <= lim * lim) by (nonlinear_arith)
        requires
            -lim <= x <= lim,
            -lim <= y <= lim,
            -lim <= z <= lim,
    ;
    assert(-lim * lim <= y * den <= lim * lim) by (nonlinear_arith)
        requires
            -lim <= y <= lim,
            0 < den <= lim,
    ;
    assert(x * x >= 0 && y * y >= 0 && z * z >= 0) by (nonlinear_arith);
    let len = x * x + y * y + z * z;
    let (p, q): (i128, i128) = if len == 0 {
        (y, den)
    } else {
        (y * den, len)
    };
    let t_num = p + q;
    let t_den = 2 * q;
    Color {
        r: Ratio { num: 2 * t_den - t_num, den: 2 * t_den },
        g: Ratio { num: 10 * t_den - 3 * t_num, den: 10 * t_den },
        b: Ratio { num: 1, den: 1 },
    }
}

} // verus!

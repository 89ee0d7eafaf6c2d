//! Three-component vectors with exact rational coordinates, used for points
//! and directions.
use crate::color::Ratio;
use vstd::prelude::*;

verus! {

/// The largest magnitude allowed for a coordinate or denominator of a
/// direction that is to be shaded.
pub open spec fn coord_limit() -> int {
    0x10000000000
}

/// The vector `(x / den, y / den, z / den)`.
#[derive(Clone, Copy, Debug, PartialEq, Eq, Structural)]
pub struct Point3 {
    pub x: i64,
    pub y: i64,
    pub z: i64,
    pub den: i64,
}

/// A vector as numerators and a common denominator, in unbounded integers.
pub type Coords = (int, int, int, int);

/// Whether `v` can be stored in a `Point3`.
pub open spec fn fits(v: Coords) -> bool {
    &&& 0 < v.3 <= i64::MAX
    &&& i64::MIN <= v.0 <= i64::MAX
    &&& i64::MIN <= v.1 <= i64::MAX
    &&& i64::MIN <= v.2 <= i64::MAX
}

/// Whether `a` and `b` denote the same vector.
pub open spec fn same(a: Coords, b: Coords) -> bool {
    &&& a.0 * b.3 == b.0 * a.3
    &&& a.1 * b.3 == b.1 * a.3
    &&& a.2 * b.3 == b.2 * a.3
}

pub open spec fn add_spec(a: Coords, b: Coords) -> Coords {
    (a.0 * b.3 + b.0 * a.3, a.1 * b.3 + b.1 * a.3, a.2 * b.3 + b.2 * a.3, a.3 * b.3)
}

pub open spec fn sub_spec(a: Coords, b: Coords) -> Coords {
    (a.0 * b.3 - b.0 * a.3, a.1 * b.3 - b.1 * a.3, a.2 * b.3 - b.2 * a.3, a.3 * b.3)
}

pub open spec fn add_scalar_spec(a: Coords, t: int) -> Coords {
    (a.0 + t * a.3, a.1 + t * a.3, a.2 + t * a.3, a.3)
}

pub open spec fn neg_spec(a: Coords) -> Coords {
    (-a.0, -a.1, -a.2, a.3)
}

pub open spec fn scale_spec(a: Coords, t: int) -> Coords {
    (a.0 * t, a.1 * t, a.2 * t, a.3)
}

/// `a / t` for a nonzero integer `t`, keeping the denominator positive.
pub open spec fn divide_spec(a: Coords, t: int) -> Coords {
    if t > 0 {
        (a.0, a.1, a.2, a.3 * t)
    } else {
        (-a.0, -a.1, -a.2, -(a.3 * t))
    }
}

/// The dot product as a numerator and a denominator.
pub open spec fn dot_spec(a: Coords, b: Coords) -> (int, int) {
    (a.0 * b.0 + a.1 * b.1 + a.2 * b.2, a.3 * b.3)
}

/// The right-handed cross product.
pub open spec fn cross_spec(a: Coords, b: Coords) -> Coords {
    (a.1 * b.2 - a.2 * b.1, a.2 * b.0 - a.0 * b.2, a.0 * b.1 - a.1 * b.0, a.3 * b.3)
}

/// `a` divided by its length, where the length is taken to be the dot
/// product of `a` with itself; a zero vector is returned unchanged.
pub open spec fn unit_vector_spec(a: Coords) -> Coords {
    let n = dot_spec(a, a).0;
    if n == 0 {
        a
    } else {
        (a.0 * a.3, a.1 * a.3, a.2 * a.3, n)
    }
}

pub open spec fn abs_int(v: int) -> int {
    if v < 0 {
        -v
    } else {
        v
    }
}

/// Whether every partial sum of the dot product of `a` and `b` fits in an `i128`.
pub open spec fn dot_fits(a: Coords, b: Coords) -> bool {
    abs_int(a.0 * b.0) + abs_int(a.1 * b.1) + abs_int(a.2 * b.2) <= i128::MAX
}

/// The exact product of two 64-bit integers.
fn wide_mul(a: i64, b: i64) -> (r: i128)
    ensures
        r == a as int * b as int,
{
    let ghost m: int = 0x8000000000000000;
    let ghost ua: int = abs_int(a as int);
    let ghost ub: int = abs_int(b as int);
    assert(ua * ub <= m * m) by (nonlinear_arith)
        requires
            0 <= ua <= m,
            0 <= ub <= m,
    ;
    assert(ua * ub == abs_int(a as int * b as int)) by (nonlinear_arith)
        requires
            ua == abs_int(a as int),
            ub == abs_int(b as int),
    ;
    a as i128 * b as i128
}

impl Point3 {
    pub open spec fn view(self) -> Coords {
        (self.x as int, self.y as int, self.z as int, self.den as int)
    }

    pub open spec fn wf(self) -> bool {
        &&& 0 < self.den <= coord_limit()
        &&& -coord_limit() <= self.x <= coord_limit()
        &&& -coord_limit() <= self.y <= coord_limit()
        &&& -coord_limit() <= self.z <= coord_limit()
    }

    /// The vector `(x / den, y / den, z / den)`.
    pub fn new(x: i64, y: i64, z: i64, den: i64) -> (r: Point3)
        requires
            den > 0,
        ensures
            r == (Point3 { x, y, z, den }),
    {
        Point3 { x, y, z, den }
    }

    pub fn x(&self) -> (r: Ratio)
        ensures
            r == (Ratio { num: self.x as i128, den: self.den as i128 }),
    {
        Ratio { num: self.x as i128, den: self.den as i128 }
    }

    pub fn y(&self) -> (r: Ratio)
        ensures
            r == (Ratio { num: self.y as i128, den: self.den as i128 }),
    {
        Ratio { num: self.y as i128, den: self.den as i128 }
    }

    pub fn z(&self) -> (r: Ratio)
        ensures
            r == (Ratio { num: self.z as i128, den: self.den as i128 }),
    {
        Ratio { num: self.z as i128, den: self.den as i128 }
    }

    pub fn add(&self, other: &Point3) -> (r: Point3)
        requires
            fits(add_spec(self.view(), other.view())),
        ensures
            r.view() == add_spec(self.view(), other.view()),
    {
        let (a, b) = (*self, *other);
        let x = wide_mul(a.x, b.den) + wide_mul(b.x, a.den);
        let y = wide_mul(a.y, b.den) + wide_mul(b.y, a.den);
        let z = wide_mul(a.z, b.den) + wide_mul(b.z, a.den);
        let den = wide_mul(a.den, b.den);
        Point3 { x: x as i64, y: y as i64, z: z as i64, den: den as i64 }
    }

    pub fn sub(&self, other: &Point3) -> (r: Point3)
        requires
            fits(sub_spec(self.view(), other.view())),
        ensures
            r.view() == sub_spec(self.view(), other.view()),
    {
        let (a, b) = (*self, *other);
        let x = wide_mul(a.x, b.den) - wide_mul(b.x, a.den);
        let y = wide_mul(a.y, b.den) - wide_mul(b.y, a.den);
        let z = wide_mul(a.z, b.den) - wide_mul(b.z, a.den);
        let den = wide_mul(a.den, b.den);
        Point3 { x: x as i64, y: y as i64, z: z as i64, den: den as i64 }
    }

    /// Adds the integer `t` to every component.
    pub fn add_scalar(&self, t: i64) -> (r: Point3)
        requires
            fits(add_scalar_spec(self.view(), t as int)),
        ensures
            r.view() == add_scalar_spec(self.view(), t as int),
    {
        let a = *self;
        let x = a.x as i128 + wide_mul(t, a.den);
        let y = a.y as i128 + wide_mul(t, a.den);
        let z = a.z as i128 + wide_mul(t, a.den);
        Point3 { x: x as i64, y: y as i64, z: z as i64, den: a.den }
    }

    pub fn neg(&self) -> (r: Point3)
        requires
            fits(neg_spec(self.view())),
        ensures
            r.view() == neg_spec(self.view()),
    {
        Point3 { x: -self.x, y: -self.y, z: -self.z, den: self.den }
    }

    /// Multiplies every component by the integer `t`.
    pub fn scale(&self, t: i64) -> (r: Point3)
        requires
            fits(scale_spec(self.view(), t as int)),
        ensures
            r.view() == scale_spec(self.view(), t as int),
    {
        let a = *self;
        let x = wide_mul(a.x, t);
        let y = wide_mul(a.y, t);
        let z = wide_mul(a.z, t);
        Point3 { x: x as i64, y: y as i64, z: z as i64, den: a.den }
    }

    /// Divides every component by the nonzero integer `t`.
    pub fn divide(&self, t: i64) -> (r: Point3)
        requires
            t != 0,
            fits(divide_spec(self.view(), t as int)),
        ensures
            r.view() == divide_spec(self.view(), t as int),
    {
        let a = *self;
        let den = wide_mul(a.den, t);
        if t > 0 {
            Point3 { x: a.x, y: a.y, z: a.z, den: den as i64 }
        } else {
            Point3 { x: -a.x, y: -a.y, z: -a.z, den: (-den) as i64 }
        }
    }

    pub fn dot(&self, other: &Point3) -> (r: Ratio)
        requires
            dot_fits(self.view(), other.view()),
        ensures
            r.num as int == dot_spec(self.view(), other.view()).0,
            r.den as int == dot_spec(self.view(), other.view()).1,
    {
        let (a, b) = (*self, *other);
        let num = wide_mul(a.x, b.x) + wide_mul(a.y, b.y) + wide_mul(a.z, b.z);
        Ratio { num, den: wide_mul(a.den, b.den) }
    }

    pub fn cross(&self, other: &Point3) -> (r: Point3)
        requires
            fits(cross_spec(self.view(), other.view())),
        ensures
            r.view() == cross_spec(self.view(), other.view()),
    {
        let (a, b) = (*self, *other);
        let x = wide_mul(a.y, b.z) - wide_mul(a.z, b.y);
        let y = wide_mul(a.z, b.x) - wide_mul(a.x, b.z);
        let z = wide_mul(a.x, b.y) - wide_mul(a.y, b.x);
        let den = wide_mul(a.den, b.den);
        Point3 { x: x as i64, y: y as i64, z: z as i64, den: den as i64 }
    }

    /// The length of the vector, taken to be its dot product with itself.
    pub fn length(&self) -> (r: Ratio)
        requires
            dot_fits(self.view(), self.view()),
        ensures
            r.num as int == dot_spec(self.view(), self.view()).0,
            r.den as int == dot_spec(self.view(), self.view()).1,
    {
        self.dot(self)
    }

    /// The vector divided by its length; a zero vector is returned unchanged.
    pub fn unit_vector(&self) -> (r: Point3)
        requires
            fits(unit_vector_spec(self.view())),
        ensures
            r.view() == unit_vector_spec(self.view()),
    {
        let a = *self;
        assert(a.x * a.x >= 0 && a.y * a.y >= 0 && a.z * a.z >= 0) by (nonlinear_arith);
        assert(dot_fits(a.view(), a.view()));
        let len = self.length();
        if len.num == 0 {
            *self
        } else {
            let x = wide_mul(a.x, a.den);
            let y = wide_mul(a.y, a.den);
            let z = wide_mul(a.z, a.den);
            Point3 { x: x as i64, y: y as i64, z: z as i64, den: len.num as i64 }
        }
    }
}

/// Vector addition is commutative, component by component.
pub proof fn lemma_add_commutative(a: Point3, b: Point3)
    ensures
        add_spec(a.view(), b.view()) == add_spec(b.view(), a.view()),
{
}

/// Dividing a vector by a nonzero integer and then scaling it by the same
/// integer gives back the same vector.
pub proof fn lemma_scale_divide(a: Point3, t: i64)
    requires
        a.den > 0,
        t != 0,
    ensures
        same(scale_spec(divide_spec(a.view(), t as int), t as int), a.view()),
{
    let (x, y, z, d) = a.view();
    let t = t as int;
    assert(x * t * d == x * (d * t) && y * t * d == y * (d * t) && z * t * d == z * (d * t))
        by (nonlinear_arith);
    assert(-x * t * d == x * -(d * t) && -y * t * d == y * -(d * t) && -z * t * d == z * -(d
        * t)) by (nonlinear_arith);
}

/// Swapping the operands of a cross product negates it.
pub proof fn lemma_cross_anticommutative(a: Point3, b: Point3)
    ensures
        cross_spec(a.view(), b.view()) == neg_spec(cross_spec(b.view(), a.view())),
{
    let (p, q) = (a.view(), b.view());
    assert(p.3 * q.3 == q.3 * p.3) by (nonlinear_arith);
    assert(p.1 * q.2 == q.2 * p.1 && p.2 * q.1 == q.1 * p.2) by (nonlinear_arith);
    assert(p.2 * q.0 == q.0 * p.2 && p.0 * q.2 == q.2 * p.0) by (nonlinear_arith);
    assert(p.0 * q.1 == q.1 * p.0 && p.1 * q.0 == q.0 * p.1) by (nonlinear_arith);
}

/// The cross product of two vectors is orthogonal to the first of them.
pub proof fn lemma_cross_orthogonal(a: Point3, b: Point3)
    ensures
        dot_spec(a.view(), cross_spec(a.view(), b.view())).0 == 0,
{
    let (p, q) = (a.view(), b.view());
    assert(p.0 * (p.1 * q.2 - p.2 * q.1) + p.1 * (p.2 * q.0 - p.0 * q.2) + p.2 * (p.0 * q.1 - p.1
        * q.0) == 0) by (nonlinear_arith);
}

/// `unit_vector` returns a zero vector unchanged. Otherwise, since length is
/// taken to be the dot product of a vector with itself, the lengths of a
/// vector and of its unit vector multiply to 1; so the unit vector has
/// length 1 exactly when the vector has.
pub proof fn lemma_unit_vector_length(v: Point3)
    requires
        v.den > 0,
    ensures
        dot_spec(v.view(), v.view()).0 == 0 ==> unit_vector_spec(v.view()) == v.view(),
        dot_spec(v.view(), v.view()).0 != 0 ==> ({
            let lv = dot_spec(v.view(), v.view());
            let u = unit_vector_spec(v.view());
            let lu = dot_spec(u, u);
            &&& lu.0 * lv.0 == lu.1 * lv.1
            &&& (lv.0 == lv.1 <==> lu.0 == lu.1)
        }),
{
    let (x, y, z, d) = v.view();
    let n = x * x + y * y + z * z;
    if n != 0 {
        assert(n > 0) by (nonlinear_arith)
            requires
                n == x * x + y * y + z * z,
                n != 0,
        ;
        let lu0 = (x * d) * (x * d) + (y * d) * (y * d) + (z * d) * (z * d);
        let dd = d * d;
        assert((x * d) * (x * d) == (x * x) * dd) by (nonlinear_arith)
            requires
                dd == d * d,
        ;
        assert((y * d) * (y * d) == (y * y) * dd) by (nonlinear_arith)
            requires
                dd == d * d,
        ;
        assert((z * d) * (z * d) == (z * z) * dd) by (nonlinear_arith)
            requires
                dd == d * d,
        ;
        assert((x * x) * dd + (y * y) * dd + (z * z) * dd == dd * n) by (nonlinear_arith)
            requires
                n == x * x + y * y + z * z,
        ;
        assert(lu0 * n == (n * n) * (d * d)) by (nonlinear_arith)
            requires
                lu0 == d * d * n,
        ;
        assert(n == d * d <==> lu0 == n * n) by (nonlinear_arith)
            requires
                lu0 == d * d * n,
                n > 0,
        ;
    }
}

} // verus!

use raytracer::camera::Ray;
use raytracer::color::Ratio;
use raytracer::vector::Point3;

fn p(x: i64, y: i64, z: i64, den: i64) -> Point3 {
    Point3::new(x, y, z, den)
}

/// Whether two vectors denote the same point.
fn same(a: Point3, b: Point3) -> bool {
    a.x * b.den == b.x * a.den && a.y * b.den == b.y * a.den && a.z * b.den == b.z * a.den
}

#[test]
fn getters_give_ratios() {
    let v = p(1, -2, 3, 4);
    assert_eq!(v.x(), Ratio { num: 1, den: 4 });
    assert_eq!(v.y(), Ratio { num: -2, den: 4 });
    assert_eq!(v.z(), Ratio { num: 3, den: 4 });
}

#[test]
fn add_is_commutative() {
    let a = p(1, 2, 3, 2);
    let b = p(-4, 5, 0, 3);
    assert_eq!(a.add(&b), b.add(&a));
    assert_eq!(a.add(&b), p(-5, 16, 9, 6));
}

#[test]
fn sub_and_neg() {
    let a = p(1, 2, 3, 1);
    let b = p(1, 1, 1, 2);
    assert!(same(a.sub(&b), p(1, 3, 5, 2)));
    assert_eq!(a.neg(), p(-1, -2, -3, 1));
    assert!(same(a.sub(&a), p(0, 0, 0, 1)));
}

#[test]
fn add_scalar_to_each_component() {
    assert_eq!(p(1, 2, 3, 2).add_scalar(1), p(3, 4, 5, 2));
}

#[test]
fn scale_undoes_divide() {
    let a = p(3, -6, 9, 5);
    for t in [1i64, 2, 7, -1, -3] {
        let back = a.divide(t).scale(t);
        assert!(same(back, a));
    }
    assert_eq!(a.divide(-3), p(-3, 6, -9, 15));
    assert_eq!(a.scale(2), p(6, -12, 18, 5));
}

#[test]
fn dot_product() {
    let a = p(1, 2, 3, 1);
    let b = p(4, -5, 6, 2);
    assert_eq!(a.dot(&b), Ratio { num: 12, den: 2 });
}

#[test]
fn cross_is_anticommutative_and_orthogonal() {
    let a = p(1, 2, 3, 1);
    let b = p(4, 5, 6, 1);
    let ab = a.cross(&b);
    assert_eq!(ab, p(-3, 6, -3, 1));
    assert_eq!(ab, b.cross(&a).neg());
    assert_eq!(a.dot(&ab).num, 0);
    assert_eq!(b.dot(&ab).num, 0);
    assert_eq!(p(1, 0, 0, 1).cross(&p(0, 1, 0, 1)), p(0, 0, 1, 1));
}

#[test]
fn length_is_dot_with_itself() {
    assert_eq!(p(1, 2, 2, 1).length(), Ratio { num: 9, den: 1 });
    assert_eq!(p(3, 4, 0, 5).length(), Ratio { num: 25, den: 25 });
}

#[test]
fn unit_vector_of_zero_is_zero() {
    let zero = p(0, 0, 0, 3);
    assert_eq!(zero.unit_vector(), zero);
}

#[test]
fn unit_vector_divides_by_length() {
    // (3/5, 4/5, 0) has length 1 and stays the same point.
    let v = p(3, 4, 0, 5);
    let u = v.unit_vector();
    assert!(same(u, v));
    let l = u.length();
    assert_eq!(l.num, l.den);
    // (2, 0, 0) has length 4: its unit vector is (1/2, 0, 0), of length 1/4.
    let w = p(2, 0, 0, 1).unit_vector();
    assert!(same(w, p(1, 0, 0, 2)));
    let lw = w.length();
    assert_eq!(lw.num * 4, lw.den);
}

#[test]
fn ray_point_at() {
    let ray = Ray::new(p(1, 1, 1, 1), p(0, 1, -2, 2));
    assert!(same(ray.at(0), p(1, 1, 1, 1)));
    assert!(same(ray.at(4), p(1, 3, -3, 1)));
    assert!(same(ray.at(-2), p(1, 0, 3, 1)));
    assert_eq!(ray.origin(), p(1, 1, 1, 1));
    assert_eq!(ray.direction(), p(0, 1, -2, 2));
}

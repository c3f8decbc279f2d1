use typed_geometry::mask::{Mask2, Mask3};
use typed_geometry::num::{One, Zero};
use typed_geometry::point::{Point2, Point3};
use typed_geometry::size::{Size2, Size3};
use typed_geometry::space::{Axis2, Axis3, Normal, UnknownUnit};
use typed_geometry::vector::{Vector2, Vector3};

type V2 = Vector2<i64, UnknownUnit>;
type V3 = Vector3<i64, UnknownUnit>;

#[test]
fn vector2_construction_and_conversion() {
    let v = V2::new(3, 4);
    assert_eq!((v.x, v.y), (3, 4));
    assert_eq!(V2::splat(7), V2::new(7, 7));
    assert_eq!(v.to_array(), [3, 4]);
    assert_eq!(v.to_tuple(), (3, 4));
    assert_eq!(v.to_point(), Point2::new(3, 4));
    assert_eq!(v.to_size(), Size2::new(3, 4));
    assert_eq!(v.to_normal().to_vector(), v);
    assert_eq!(v.extend(5), V3::new(3, 4, 5));
    assert_eq!(v.erase_unit(), v);
    assert_eq!(<V2 as Zero>::zero(), V2::new(0, 0));
    assert_eq!(<V2 as One>::one(), V2::new(1, 1));
}

#[test]
fn vector3_construction_and_conversion() {
    let v = V3::new(3, 4, 5);
    assert_eq!(V3::splat(7), V3::new(7, 7, 7));
    assert_eq!(V3::zero(), V3::new(0, 0, 0));
    assert_eq!(<V3 as One>::one(), V3::new(1, 1, 1));
    assert_eq!(v.to_array(), [3, 4, 5]);
    assert_eq!(v.to_tuple(), (3, 4, 5));
    assert_eq!(v.to_point(), Point3::new(3, 4, 5));
    assert_eq!(v.to_size(), Size3::new(3, 4, 5));
    assert_eq!(v.to_normal().to_vector(), v);
    assert_eq!(v.erase_unit(), v);
}

#[test]
fn vector_axis_access() {
    let mut v = V3::new(3, 4, 5);
    assert_eq!(v.get(Axis3::X), 3);
    assert_eq!(v.get(Axis3::Y), 4);
    assert_eq!(v.get(Axis3::Z), 5);
    v.set(Axis3::Y, 40);
    assert_eq!(v, V3::new(3, 40, 5));
    let mut w = V2::new(1, 2);
    w.set(Axis2::X, 10);
    assert_eq!(w, V2::new(10, 2));
    assert_eq!(w.get(Axis2::Y), 2);
}

#[test]
fn vector2_products() {
    let a = V2::new(3, 4);
    let b = V2::new(-2, 5);
    assert_eq!(a.length_squared(), 25);
    assert_eq!(a.dot(b), 14);
    assert_eq!(a.cross(b), 23);
    assert_eq!(b.cross(a), -23);
    assert_eq!(a.component_mul(b), V2::new(-6, 20));
    assert_eq!(V2::new(7, -7).component_div(V2::new(2, 2)), V2::new(3, -3));
}

#[test]
fn vector3_products() {
    let a = V3::new(1, 2, 3);
    let b = V3::new(4, 5, 6);
    assert_eq!(a.length_squared(), 14);
    assert_eq!(a.dot(b), 32);
    assert_eq!(a.cross(b), V3::new(-3, 6, -3));
    assert_eq!(V3::new(1, 0, 0).cross(V3::new(0, 1, 0)), V3::new(0, 0, 1));
    assert_eq!(a.component_mul(b), V3::new(4, 10, 18));
    assert_eq!(b.component_div(a), V3::new(4, 2, 2));
}

#[test]
fn vector_operators() {
    let a = V2::new(3, 4);
    let b = V2::new(-2, 5);
    assert_eq!(a + b, V2::new(1, 9));
    assert_eq!(a - b, V2::new(5, -1));
    assert_eq!(-a, V2::new(-3, -4));
    assert_eq!(a * 3, V2::new(9, 12));
    assert_eq!(V2::new(7, -7) / 2, V2::new(3, -3));
    let c = V3::new(1, 2, 3);
    assert_eq!(c + c, V3::new(2, 4, 6));
    assert_eq!(c - V3::new(3, 2, 1), V3::new(-2, 0, 2));
    assert_eq!(-c, V3::new(-1, -2, -3));
    assert_eq!(c * -2, V3::new(-2, -4, -6));
    assert_eq!(V3::new(9, -9, 1) / 2, V3::new(4, -4, 0));
}

#[test]
fn vector_abs_and_rounding() {
    assert_eq!(V2::new(-3, 4).abs(), V2::new(3, 4));
    assert_eq!(V3::new(-3, 0, -5).abs(), V3::new(3, 0, 5));
    assert_eq!(V2::new(-3, 4).round(), V2::new(-3, 4));
    assert_eq!(V2::new(-3, 4).ceil(), V2::new(-3, 4));
    assert_eq!(V3::new(1, 2, 3).floor(), V3::new(1, 2, 3));
}

#[test]
fn vector_lerp() {
    let a = V2::new(0, 10);
    let b = V2::new(10, 20);
    assert_eq!(a.lerp(b, 0), a);
    assert_eq!(a.lerp(b, 1), b);
    assert_eq!(a.lerp(b, 2), V2::new(20, 30));
    assert_eq!(V3::new(1, 2, 3).lerp(V3::new(2, 4, 6), 3), V3::new(4, 8, 12));
}

#[test]
fn vector_projection_and_reflection() {
    assert_eq!(V2::new(3, 4).project_onto(V2::new(2, 0)), V2::new(2, 0));
    assert_eq!(V2::new(5, 5).project_onto(V2::new(1, 0)), V2::new(5, 0));
    assert_eq!(V3::new(1, 2, 3).project_onto(V3::new(0, 0, 1)), V3::new(0, 0, 3));
    let n: Vector2<i64, Normal<UnknownUnit>> = Vector2::new(0, 1);
    assert_eq!(V2::new(3, -4).reflect(n), V2::new(3, 4));
    let n3: Vector3<i64, Normal<UnknownUnit>> = Vector3::new(1, 0, 0);
    assert_eq!(V3::new(3, -4, 5).reflect(n3), V3::new(-3, -4, 5));
}

#[test]
fn vector_comparisons() {
    let a = V2::new(1, 5);
    let b = V2::new(2, 5);
    assert_eq!(a.cmp_eq(b), Mask2::new(false, true));
    assert_eq!(a.cmp_ne(b), Mask2::new(true, false));
    assert_eq!(a.cmp_lt(b), Mask2::new(true, false));
    assert_eq!(a.cmp_le(b), Mask2::new(true, true));
    assert_eq!(a.cmp_gt(b), Mask2::new(false, false));
    assert_eq!(a.cmp_ge(b), Mask2::new(false, true));
    let c = V3::new(1, 5, 9);
    let d = V3::new(2, 5, 8);
    assert_eq!(c.cmp_eq(d), Mask3::new(false, true, false));
    assert_eq!(c.cmp_ne(d), Mask3::new(true, false, true));
    assert_eq!(c.cmp_lt(d), Mask3::new(true, false, false));
    assert_eq!(c.cmp_le(d), Mask3::new(true, true, false));
    assert_eq!(c.cmp_gt(d), Mask3::new(false, false, true));
    assert_eq!(c.cmp_ge(d), Mask3::new(false, true, true));
}

#[test]
fn vector_min_max_clamp() {
    let a = V2::new(1, 9);
    let b = V2::new(4, 2);
    assert_eq!(a.min(b), V2::new(1, 2));
    assert_eq!(a.max(b), V2::new(4, 9));
    assert_eq!(V2::new(-5, 50).clamp(V2::new(0, 0), V2::new(10, 10)), V2::new(0, 10));
    let c = V3::new(1, 9, 5);
    let d = V3::new(4, 2, 5);
    assert_eq!(c.min(d), V3::new(1, 2, 5));
    assert_eq!(c.max(d), V3::new(4, 9, 5));
    assert_eq!(
        V3::new(-5, 50, 5).clamp(V3::new(0, 0, 0), V3::new(10, 10, 10)),
        V3::new(0, 10, 5)
    );
}

#[test]
fn values_index_by_axis() {
    let v = V3::new(3, 4, 5);
    assert_eq!(v[Axis3::X], 3);
    assert_eq!(v[Axis3::Y], 4);
    assert_eq!(v[Axis3::Z], 5);
    let w = V2::new(1, 2);
    assert_eq!(w[Axis2::X], 1);
    assert_eq!(w[Axis2::Y], 2);
    let p: Point3<i64, UnknownUnit> = Point3::new(7, 8, 9);
    assert_eq!(p[Axis3::Z], 9);
    let q: Point2<i64, UnknownUnit> = Point2::new(7, 8);
    assert_eq!(q[Axis2::Y], 8);
    let s: Size3<i64, UnknownUnit> = Size3::new(1, 2, 3);
    assert_eq!(s[Axis3::Y], 2);
    let t: Size2<i64, UnknownUnit> = Size2::new(1, 2);
    assert_eq!(t[Axis2::X], 1);
    assert_eq!(Mask2::new(true, false)[Axis2::X], true);
    assert_eq!(Mask2::new(true, false)[Axis2::Y], false);
    assert_eq!(Mask3::new(true, false, true)[Axis3::Z], true);
    assert_eq!(Mask3::new(true, false, true)[Axis3::Y], false);
}

#[test]
fn equal_values_hash_alike() {
    let mut seen = std::collections::HashSet::new();
    assert!(seen.insert(V2::new(1, 2)));
    assert!(!seen.insert(V2::new(1, 2)));
    assert!(seen.insert(V2::new(2, 1)));
    assert_eq!(seen.len(), 2);
    let mut points = std::collections::HashSet::new();
    assert!(points.insert(Point3::<i64, UnknownUnit>::new(1, 2, 3)));
    assert!(!points.insert(Point3::new(1, 2, 3)));
}

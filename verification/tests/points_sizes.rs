use typed_geometry::mask::{Mask2, Mask3};
use typed_geometry::num::Zero;
use typed_geometry::point::{Point2, Point3};
use typed_geometry::size::{Size2, Size3};
use typed_geometry::space::{Axis2, Axis3, UnknownUnit};
use typed_geometry::units::Length;
use typed_geometry::vector::{Vector2, Vector3};

type P2 = Point2<i64, UnknownUnit>;
type P3 = Point3<i64, UnknownUnit>;
type S2 = Size2<i64, UnknownUnit>;
type S3 = Size3<i64, UnknownUnit>;

#[test]
fn point_construction_and_conversion() {
    let p = P2::new(3, 4);
    assert_eq!(P2::splat(2), P2::new(2, 2));
    assert_eq!(P2::origin(), P2::new(0, 0));
    assert_eq!(<P2 as Zero>::zero(), P2::new(0, 0));
    assert_eq!(p.to_vector(), Vector2::new(3, 4));
    assert_eq!(p.to_array(), [3, 4]);
    assert_eq!(p.to_tuple(), (3, 4));
    assert_eq!(p.extend(5), P3::new(3, 4, 5));
    assert_eq!(p.erase_unit(), p);
    let q = P3::new(3, 4, 5);
    assert_eq!(P3::splat(2), P3::new(2, 2, 2));
    assert_eq!(P3::origin(), P3::new(0, 0, 0));
    assert_eq!(q.to_vector(), Vector3::new(3, 4, 5));
    assert_eq!(q.to_array(), [3, 4, 5]);
    assert_eq!(q.to_tuple(), (3, 4, 5));
    assert_eq!(q.get(Axis3::Z), 5);
    assert_eq!(p.get(Axis2::X), 3);
}

#[test]
fn point_operators() {
    let p = P2::new(3, 4);
    assert_eq!(p + Vector2::new(1, 1), P2::new(4, 5));
    assert_eq!(p - Vector2::new(1, 1), P2::new(2, 3));
    assert_eq!(p - P2::new(1, 1), Vector2::new(2, 3));
    assert_eq!(p - Size2::new(1, 2), P2::new(2, 2));
    assert_eq!(-p, P2::new(-3, -4));
    assert_eq!(p * 2, P2::new(6, 8));
    assert_eq!(p / 2, P2::new(1, 2));
    let q = P3::new(3, 4, 5);
    assert_eq!(q + Vector3::new(1, 1, 1), P3::new(4, 5, 6));
    assert_eq!(q - Vector3::new(1, 1, 1), P3::new(2, 3, 4));
    assert_eq!(q - P3::new(1, 1, 1), Vector3::new(2, 3, 4));
    assert_eq!(q - Size3::new(1, 2, 3), P3::new(2, 2, 2));
    assert_eq!(-q, P3::new(-3, -4, -5));
    assert_eq!(q * 2, P3::new(6, 8, 10));
    assert_eq!(q / -2, P3::new(-1, -2, -2));
}

#[test]
fn point_lerp_min_max_clamp() {
    let a = P2::new(0, 10);
    let b = P2::new(10, 0);
    assert_eq!(a.lerp(b, 0), a);
    assert_eq!(a.lerp(b, 1), b);
    assert_eq!(a.lerp(b, -1), P2::new(-10, 20));
    assert_eq!(a.min(b), P2::new(0, 0));
    assert_eq!(a.max(b), P2::new(10, 10));
    assert_eq!(P2::new(-3, 30).clamp(a.min(b), a.max(b)), P2::new(0, 10));
    let c = P3::new(0, 10, 5);
    let d = P3::new(10, 0, 5);
    assert_eq!(c.lerp(d, 2), P3::new(20, -10, 5));
    assert_eq!(c.min(d), P3::new(0, 0, 5));
    assert_eq!(c.max(d), P3::new(10, 10, 5));
    assert_eq!(P3::new(-3, 30, 7).clamp(c.min(d), c.max(d)), P3::new(0, 10, 5));
    assert_eq!(c.round(), c);
    assert_eq!(c.ceil(), c);
    assert_eq!(a.floor(), a);
}

#[test]
fn size_construction_and_measures() {
    let s = S2::new(3, 4);
    assert_eq!(S2::from_lengths(Length::new(3), Length::new(4)), s);
    assert_eq!(S2::splat(2), S2::new(2, 2));
    assert_eq!(<S2 as Zero>::zero(), S2::new(0, 0));
    assert_eq!(s.to_array(), [3, 4]);
    assert_eq!(s.to_tuple(), (3, 4));
    assert_eq!(s.to_vector(), Vector2::new(3, 4));
    assert_eq!(s.to_normal().to_vector(), Vector2::new(3, 4));
    assert_eq!(s.area(), 12);
    let t = S3::new(3, 4, 5);
    assert_eq!(S3::from_lengths(Length::new(3), Length::new(4), Length::new(5)), t);
    assert_eq!(S3::splat(2), S3::new(2, 2, 2));
    assert_eq!(t.to_array(), [3, 4, 5]);
    assert_eq!(t.to_tuple(), (3, 4, 5));
    assert_eq!(t.to_vector(), Vector3::new(3, 4, 5));
    assert_eq!(t.volume(), 60);
    assert_eq!(t.erase_unit(), t);
}

#[test]
fn size_predicates() {
    assert!(S2::new(1, 1).is_positive());
    assert!(!S2::new(1, 0).is_positive());
    assert!(!S2::new(-1, 5).is_positive());
    assert!(S2::new(1, 0).is_empty());
    assert!(S2::new(-1, 5).is_empty());
    assert!(!S2::new(1, 1).is_empty());
    assert!(S3::new(1, 1, 1).is_positive());
    assert!(!S3::new(1, 1, 0).is_positive());
    assert!(S3::new(1, 1, 0).is_empty());
    assert!(!S3::new(1, 2, 3).is_empty());
    assert!(S2::new(3, 4).contains(S2::new(3, 2)));
    assert!(!S2::new(3, 4).contains(S2::new(4, 2)));
    assert!(S3::new(3, 4, 5).contains(S3::new(3, 4, 5)));
    assert!(!S3::new(3, 4, 5).contains(S3::new(3, 4, 6)));
}

#[test]
fn size_arithmetic() {
    let s = S2::new(3, -4);
    assert_eq!(s.abs(), S2::new(3, 4));
    assert_eq!(S3::new(-1, -2, 3).abs(), S3::new(1, 2, 3));
    assert_eq!(s + S2::new(1, 1), S2::new(4, -3));
    assert_eq!(s - S2::new(1, 1), S2::new(2, -5));
    assert_eq!(-s, S2::new(-3, 4));
    assert_eq!(s * 2, S2::new(6, -8));
    assert_eq!(s / 2, S2::new(1, -2));
    assert_eq!(S2::new(0, 10).lerp(S2::new(10, 20), 3), S2::new(30, 40));
    assert_eq!(S3::new(0, 10, 1).lerp(S3::new(10, 20, 1), 0), S3::new(0, 10, 1));
    assert_eq!(S3::new(1, 2, 3) + S3::new(1, 1, 1), S3::new(2, 3, 4));
    assert_eq!(S3::new(1, 2, 3) - S3::new(1, 1, 1), S3::new(0, 1, 2));
    assert_eq!(S3::new(1, 2, 3) * 3, S3::new(3, 6, 9));
    assert_eq!(S3::new(3, 6, 10) / 3, S3::new(1, 2, 3));
}

#[test]
fn size_min_max_clamp_and_comparisons() {
    let a = S2::new(1, 9);
    let b = S2::new(4, 2);
    assert_eq!(a.min(b), S2::new(1, 2));
    assert_eq!(a.max(b), S2::new(4, 9));
    assert_eq!(S2::new(-5, 50).clamp(S2::new(0, 0), S2::new(10, 10)), S2::new(0, 10));
    assert_eq!(S2::new(5, 5).clamp(S2::new(8, 0), S2::new(6, 10)), S2::new(8, 5));
    assert_eq!(a.cmp_eq(b), Mask2::new(false, false));
    assert_eq!(a.cmp_ne(b), Mask2::new(true, true));
    assert_eq!(a.cmp_lt(b), Mask2::new(true, false));
    assert_eq!(a.cmp_le(b), Mask2::new(true, false));
    assert_eq!(a.cmp_gt(b), Mask2::new(false, true));
    assert_eq!(a.cmp_ge(b), Mask2::new(false, true));
    let c = S3::new(1, 9, 5);
    let d = S3::new(4, 2, 5);
    assert_eq!(c.min(d), S3::new(1, 2, 5));
    assert_eq!(c.max(d), S3::new(4, 9, 5));
    assert_eq!(c.clamp(S3::new(2, 2, 2), S3::new(3, 3, 3)), S3::new(2, 3, 3));
    assert_eq!(c.cmp_eq(d), Mask3::new(false, false, true));
    assert_eq!(c.cmp_ge(d), Mask3::new(false, true, true));
    assert_eq!(c.cmp_gt(d), Mask3::new(false, true, false));
    assert_eq!(c.cmp_le(d), Mask3::new(true, false, true));
    assert_eq!(c.cmp_lt(d), Mask3::new(true, false, false));
    assert_eq!(c.cmp_ne(d), Mask3::new(true, true, false));
}

use typed_geometry::bounds::{Box2, Box3};
use typed_geometry::point::{Point2, Point3};
use typed_geometry::size::{Size2, Size3};
use typed_geometry::space::{Axis2, Axis3, UnknownUnit};
use typed_geometry::units::Length;
use typed_geometry::vector::{Vector2, Vector3};

type P2 = Point2<i64, UnknownUnit>;
type P3 = Point3<i64, UnknownUnit>;
type B2 = Box2<i64, UnknownUnit>;
type B3 = Box3<i64, UnknownUnit>;

fn b2(x0: i64, y0: i64, x1: i64, y1: i64) -> B2 {
    Box2::new(P2::new(x0, y0), P2::new(x1, y1))
}

fn b3(x0: i64, y0: i64, z0: i64, x1: i64, y1: i64, z1: i64) -> B3 {
    Box3::new(P3::new(x0, y0, z0), P3::new(x1, y1, z1))
}

#[test]
fn box_construction() {
    assert_eq!(B2::empty(), b2(0, 0, 0, 0));
    assert_eq!(B3::empty(), b3(0, 0, 0, 0, 0, 0));
    assert_eq!(B2::from_size(Size2::new(3, 4)), b2(0, 0, 3, 4));
    assert_eq!(B3::from_size(Size3::new(3, 4, 5)), b3(0, 0, 0, 3, 4, 5));
    assert_eq!(B2::from(Size2::new(3, 4)), b2(0, 0, 3, 4));
    assert_eq!(B3::from(Size3::new(3, 4, 5)), b3(0, 0, 0, 3, 4, 5));
    assert_eq!(b2(1, 2, 3, 4).erase_unit(), b2(1, 2, 3, 4));
    assert_eq!(b3(1, 2, 3, 4, 5, 6).clone(), b3(1, 2, 3, 4, 5, 6));
}

#[test]
fn box_emptiness() {
    assert!(B2::empty().is_empty());
    assert!(b2(0, 0, 5, 0).is_empty());
    assert!(b2(3, 3, 1, 5).is_empty());
    assert!(!b2(0, 0, 1, 1).is_empty());
    assert!(b3(0, 0, 0, 1, 1, 0).is_empty());
    assert!(!b3(0, 0, 0, 1, 1, 1).is_empty());
}

#[test]
fn box_contains_is_half_open() {
    let b = b2(0, 0, 10, 10);
    assert!(b.contains(P2::new(0, 0)));
    assert!(b.contains(P2::new(9, 9)));
    assert!(!b.contains(P2::new(10, 5)));
    assert!(!b.contains(P2::new(5, 10)));
    assert!(!b.contains(P2::new(-1, 5)));
    let c = b3(0, 0, 0, 10, 10, 10);
    assert!(c.contains(P3::new(0, 0, 0)));
    assert!(c.contains(P3::new(9, 9, 9)));
    assert!(!c.contains(P3::new(9, 9, 10)));
}

#[test]
fn box_intersects_and_contains_box() {
    let b = b2(0, 0, 10, 10);
    assert!(b.intersects(&b2(5, 5, 15, 15)));
    assert!(!b.intersects(&b2(10, 0, 20, 10)));
    assert!(b.contains_box(&b2(2, 2, 10, 10)));
    assert!(!b.contains_box(&b2(2, 2, 11, 10)));
    assert!(b.contains_box(&b2(50, 50, 50, 50)));
    let c = b3(0, 0, 0, 10, 10, 10);
    assert!(c.intersects(&b3(9, 9, 9, 20, 20, 20)));
    assert!(!c.intersects(&b3(9, 9, 10, 20, 20, 20)));
    assert!(c.contains_box(&b3(1, 1, 1, 2, 2, 2)));
    assert!(!c.contains_box(&b3(1, 1, 1, 2, 2, 12)));
    assert!(c.contains_box(&b3(100, 100, 100, 0, 0, 0)));
}

#[test]
fn box_translate_inflate() {
    assert_eq!(b2(0, 0, 2, 3).translate(Vector2::new(10, 20)), b2(10, 20, 12, 23));
    assert_eq!(b2(0, 0, 2, 3).inflate(1, 2), b2(-1, -2, 3, 5));
    assert_eq!(
        b3(0, 0, 0, 2, 3, 4).translate(Vector3::new(10, 20, 30)),
        b3(10, 20, 30, 12, 23, 34)
    );
    assert_eq!(b3(0, 0, 0, 2, 3, 4).inflate(1, 2, 3), b3(-1, -2, -3, 3, 5, 7));
}

#[test]
fn box_measures() {
    let b = b2(1, 2, 4, 8);
    assert_eq!(b.range(Axis2::X), 1..4);
    assert_eq!(b.range(Axis2::Y), 2..8);
    assert_eq!(b.center(), P2::new(2, 5));
    assert_eq!(b.length(Axis2::X), Length::new(3));
    assert_eq!(b.length(Axis2::Y), Length::new(6));
    assert_eq!(b.size(), Size2::new(3, 6));
    assert_eq!(b.area(), 18);
    let c = b3(1, 2, 3, 4, 8, 13);
    assert_eq!(c.range(Axis3::Z), 3..13);
    assert_eq!(c.center(), P3::new(2, 5, 8));
    assert_eq!(c.length(Axis3::Z), Length::new(10));
    assert_eq!(c.size(), Size3::new(3, 6, 10));
    assert_eq!(c.area(Axis3::X, Axis3::Y), 18);
    assert_eq!(c.area(Axis3::Y, Axis3::Z), 60);
    assert_eq!(c.volume(), 180);
}

#[test]
fn box_union() {
    let a = b2(0, 0, 2, 2);
    let b = b2(1, 1, 5, 3);
    assert_eq!(a.union(&b), b2(0, 0, 5, 3));
    assert_eq!(a.union(&B2::empty()), a);
    assert_eq!(B2::empty().union(&b), b);
    assert_eq!(b2(9, 9, 9, 9).union(&b2(7, 7, 7, 7)), b2(9, 9, 9, 9));
    let c = b3(0, 0, 0, 2, 2, 2);
    let d = b3(1, 1, -1, 5, 3, 1);
    assert_eq!(c.union(&d), b3(0, 0, -1, 5, 3, 2));
    assert_eq!(c.union(&B3::empty()), c);
    assert_eq!(B3::empty().union(&d), d);
}

#[test]
fn box_intersection() {
    let a = b2(0, 0, 4, 4);
    assert_eq!(a.intersection(&b2(2, 1, 6, 3)), Some(b2(2, 1, 4, 3)));
    assert_eq!(a.intersection(&b2(4, 0, 6, 4)), None);
    assert_eq!(a.intersection_unchecked(&b2(5, 0, 6, 4)), b2(5, 0, 4, 4));
    let c = b3(0, 0, 0, 4, 4, 4);
    assert_eq!(c.intersection(&b3(2, 1, 3, 6, 3, 9)), Some(b3(2, 1, 3, 4, 3, 4)));
    assert_eq!(c.intersection(&b3(2, 1, 4, 6, 3, 9)), None);
    assert_eq!(c.intersection_unchecked(&b3(2, 1, 5, 6, 3, 9)), b3(2, 1, 5, 4, 3, 4));
}

#[test]
fn box_from_points_is_tight() {
    assert_eq!(B2::from_points(&[]), B2::empty());
    assert_eq!(B2::from_points(&[P2::new(3, 4)]), b2(3, 4, 3, 4));
    assert_eq!(
        B2::from_points(&[P2::new(3, 4), P2::new(-1, 9), P2::new(5, 0)]),
        b2(-1, 0, 5, 9)
    );
    assert_eq!(B3::from_points(&[]), B3::empty());
    assert_eq!(
        B3::from_points(&[P3::new(3, 4, 5), P3::new(-1, 9, 5), P3::new(5, 0, 6)]),
        b3(-1, 0, 5, 5, 9, 6)
    );
}

#[test]
fn box_try_from_points_stops_at_first_failure() {
    let none: [Result<P2, u8>; 0] = [];
    assert_eq!(B2::try_from_points(&none), Ok(B2::empty()));
    assert_eq!(
        B2::try_from_points::<u8>(&[Ok(P2::new(3, 4)), Ok(P2::new(-1, 9))]),
        Ok(b2(-1, 4, 3, 9))
    );
    assert_eq!(
        B2::try_from_points(&[Ok(P2::new(3, 4)), Err(7u8), Ok(P2::new(0, 0)), Err(9u8)]),
        Err(7)
    );
    assert_eq!(B2::try_from_points(&[Err(1u8), Err(2u8)]), Err(1));
    assert_eq!(
        B3::try_from_points::<u8>(&[Ok(P3::new(3, 4, 5)), Ok(P3::new(-1, 9, 2))]),
        Ok(b3(-1, 4, 2, 3, 9, 5))
    );
    assert_eq!(B3::try_from_points(&[Ok(P3::new(3, 4, 5)), Err("lost")]), Err("lost"));
    let none3: [Result<P3, ()>; 0] = [];
    assert_eq!(B3::try_from_points(&none3), Ok(B3::empty()));
}

#[test]
fn box_lerp_and_rounding() {
    assert_eq!(b2(0, 0, 10, 10).lerp(&b2(10, 10, 30, 30), 2), b2(20, 20, 50, 50));
    assert_eq!(b3(0, 0, 0, 1, 1, 1).lerp(&b3(1, 1, 1, 3, 3, 3), 1), b3(1, 1, 1, 3, 3, 3));
    assert_eq!(b3(1, 2, 3, 4, 5, 6).round_in(), b3(1, 2, 3, 4, 5, 6));
    assert_eq!(b3(1, 2, 3, 4, 5, 6).round_out(), b3(1, 2, 3, 4, 5, 6));
    assert_eq!(b2(1, 2, 3, 4).round_in(), b2(1, 2, 3, 4));
    assert_eq!(b2(1, 2, 3, 4).round_out(), b2(1, 2, 3, 4));
}

#[test]
fn box_scaling_operators() {
    assert_eq!(b2(1, 2, 3, 4) * 2, b2(2, 4, 6, 8));
    assert_eq!(b2(2, 4, 6, 9) / 2, b2(1, 2, 3, 4));
    assert_eq!(b3(1, 2, 3, 4, 5, 6) * -1, b3(-1, -2, -3, -4, -5, -6));
    assert_eq!(b3(2, 4, 6, 8, 10, 13) / 2, b3(1, 2, 3, 4, 5, 6));
}

use typed_geometry::arith::{cofactor_even, cofactor_odd, dot2, dot3, dot4, prod3, prod4};
use typed_geometry::homogen::HomogeneousVector;
use typed_geometry::mask::{Mask2, Mask3};
use typed_geometry::num::{max, min, Ceil, Floor, One, Round, Scalar, Zero};
use typed_geometry::point::{Point2, Point3};
use typed_geometry::ray::Ray;
use typed_geometry::scale::Scale;
use typed_geometry::size::{Size2, Size3};
use typed_geometry::space::{Axis2, Axis3, Normal, UnknownUnit};
use typed_geometry::transform::{Transform, Transformation};
use typed_geometry::translation::{Translation2, Translation3};
use typed_geometry::bounds::{Box2, Box3};
use typed_geometry::units::{Angle, Length, Time};
use typed_geometry::vector::{Vector2, Vector3};

#[test]
fn scalar_constants_come_from_the_numeric_traits() {
    assert_eq!(<i64 as Scalar>::zero(), 0);
    assert_eq!(<i64 as Scalar>::one(), 1);
    assert_eq!(<i32 as Scalar>::zero(), 0);
    assert_eq!(<i32 as Scalar>::one(), 1);
    assert_eq!(<i64 as Zero>::zero(), 0);
    assert_eq!(<i64 as One>::one(), 1);
    assert_eq!(<i32 as Zero>::zero(), 0);
    assert_eq!(<i32 as One>::one(), 1);
}

#[test]
fn scalar_abs_and_sign() {
    assert_eq!(Scalar::abs(-5i64), 5);
    assert_eq!(Scalar::abs(5i64), 5);
    assert_eq!(Scalar::abs(0i64), 0);
    assert_eq!(Scalar::abs(i64::MIN + 1), i64::MAX);
    assert_eq!(Scalar::abs(-5i32), 5);
    assert_eq!(Scalar::abs(i32::MIN + 1), i32::MAX);
    assert!(Scalar::is_positive(3i64));
    assert!(!Scalar::is_positive(0i64));
    assert!(!Scalar::is_positive(-3i64));
    assert!(Scalar::is_positive(3i32));
    assert!(!Scalar::is_positive(0i32));
    assert!(!Scalar::is_positive(-3i32));
}

#[test]
fn scalar_arithmetic_is_exact() {
    assert_eq!(Scalar::add(i64::MAX - 1, 1), i64::MAX);
    assert_eq!(Scalar::sub(i64::MIN + 1, 1), i64::MIN);
    assert_eq!(Scalar::mul(-3i64, 7), -21);
    assert_eq!(Scalar::neg(i64::MAX), i64::MIN + 1);
    assert_eq!(Scalar::add(2i32, 3), 5);
    assert_eq!(Scalar::sub(2i32, 3), -1);
    assert_eq!(Scalar::mul(2i32, 3), 6);
    assert_eq!(Scalar::neg(2i32), -2);
}

#[test]
fn scalar_division_rounds_toward_zero() {
    assert_eq!(Scalar::div(7i64, 2), 3);
    assert_eq!(Scalar::div(-7i64, 2), -3);
    assert_eq!(Scalar::div(7i64, -2), -3);
    assert_eq!(Scalar::div(-7i64, -2), 3);
    assert_eq!(Scalar::div(1i64, 5), 0);
    assert_eq!(Scalar::div(1i64, -1), -1);
    assert_eq!(Scalar::div(-7i32, 2), -3);
    assert_eq!(Scalar::div(i32::MIN, 1), i32::MIN);
}

#[test]
fn scalar_comparisons() {
    assert!(Scalar::eq(3i64, 3));
    assert!(Scalar::ne(3i64, 4));
    assert!(Scalar::lt(3i64, 4));
    assert!(Scalar::le(3i64, 3));
    assert!(Scalar::gt(4i64, 3));
    assert!(Scalar::ge(3i64, 3));
    assert!(!Scalar::lt(3i32, 3));
    assert!(!Scalar::gt(3i32, 3));
    assert!(!Scalar::eq(3i32, 4));
    assert!(!Scalar::ne(3i32, 3));
    assert!(!Scalar::le(4i32, 3));
    assert!(!Scalar::ge(2i32, 3));
    assert_eq!(min(3i64, 4), 3);
    assert_eq!(min(4i64, 3), 3);
    assert_eq!(max(3i64, 4), 4);
    assert_eq!(max(4i32, 3), 4);
}

#[test]
fn integers_are_their_own_rounding() {
    assert_eq!(Round::round(-7i64), -7);
    assert_eq!(Ceil::ceil(-7i64), -7);
    assert_eq!(Floor::floor(-7i64), -7);
    assert_eq!(Round::round(7i32), 7);
    assert_eq!(Ceil::ceil(7i32), 7);
    assert_eq!(Floor::floor(7i32), 7);
}

#[test]
fn fixed_shape_sums_and_products() {
    assert_eq!(prod3(2i64, 3, 4), 24);
    assert_eq!(prod4(2i64, 3, 4, -5), -120);
    assert_eq!(dot2(1i64, 2, 3, 4), 14);
    assert_eq!(dot3(1i64, 2, 3, 4, 5, 6), 44);
    assert_eq!(dot4(1i64, 2, 3, 4, 5, 6, 7, 8), 100);
    let t = |a: i64| (a, 1i64, 1i64);
    assert_eq!(cofactor_even(2, t(1), t(2), t(4), t(8), t(16), t(32)), 2 * (1 - 2 + 4 - 8 - 16 + 32));
    assert_eq!(cofactor_odd(2, t(1), t(2), t(4), t(8), t(16), t(32)), 2 * (1 - 2 - 4 + 8 + 16 - 32));
    assert_eq!(cofactor_even(1i64, (2, 3, 4), t(0), t(0), t(0), t(0), t(0)), 24);
}

#[test]
fn length_arithmetic() {
    type L = Length<i64, UnknownUnit>;
    let a = L::new(7);
    assert_eq!(a.get(), 7);
    assert_eq!(a + L::new(3), L::new(10));
    assert_eq!(a - L::new(10), L::new(-3));
    assert_eq!(-a, L::new(-7));
    assert_eq!(a * 3, L::new(21));
    assert_eq!(a / 2, L::new(3));
    assert_eq!(a.lerp(L::new(17), 2), L::new(27));
    assert_eq!(a.min(L::new(3)), L::new(3));
    assert_eq!(a.max(L::new(3)), a);
    assert_eq!(<L as Zero>::zero(), L::new(0));
    assert_eq!(<L as One>::one(), L::new(1));
    assert_eq!(a.clone(), a);
}

#[test]
fn length_and_scale_convert_between_spaces() {
    struct Inch;
    struct Mm;
    let per_inch: Scale<i64, Inch, Mm> = Scale::new(25);
    let two: Length<i64, Inch> = Length::new(2);
    let mm: Length<i64, Mm> = two * per_inch;
    assert_eq!(mm.get(), 50);
    let back: Length<i64, Inch> = mm / per_inch;
    assert_eq!(back.get(), 2);
    let ratio: Scale<i64, Inch, Mm> = mm / two;
    assert_eq!(ratio.get(), 25);
    assert_eq!(per_inch.transform(two).get(), 50);
}

#[test]
fn angle_and_time_arithmetic() {
    let a = Angle::from_radians(6i64);
    assert_eq!(a.radians(), 6);
    assert_eq!(a + Angle::from_radians(1), Angle::from_radians(7));
    assert_eq!(a - Angle::from_radians(1), Angle::from_radians(5));
    assert_eq!(-a, Angle::from_radians(-6));
    assert_eq!(a * 2, Angle::from_radians(12));
    assert_eq!(a / 4, Angle::from_radians(1));
    assert_eq!(a / Angle::from_radians(4), 1);
    assert_eq!(<Angle<i64> as Zero>::zero(), Angle::from_radians(0));
    let t = Time(10i64);
    assert_eq!(t + Time(5), Time(15));
    assert_eq!(t - Time(5), Time(5));
    assert_eq!(t * 3, Time(30));
    assert_eq!(t / 3, Time(3));
    assert_eq!(t / Time(3), 3);
    assert_eq!(<Time<i64> as Zero>::zero(), Time(0));
}

#[test]
fn scale_composes_by_multiplication_and_inverts_by_reciprocal() {
    type S = Scale<i64, UnknownUnit, UnknownUnit>;
    let s = S::new(3);
    assert_eq!(s.get(), 3);
    assert_eq!(s * S::new(4), S::new(12));
    assert_eq!(s + S::new(4), S::new(7));
    assert_eq!(s - S::new(4), S::new(-1));
    assert!(<S as Transformation<i64, UnknownUnit, UnknownUnit>>::identity().is_identity());
    assert_eq!(<S as One>::one(), S::new(1));
    assert!(!s.is_identity());
    assert_eq!(S::new(1).inverse(), S::new(1));
    assert_eq!(S::new(-1).inverse(), S::new(-1));
    assert_eq!(s.inverse(), S::new(0));
    assert_eq!(s.clone(), s);
}

#[test]
fn scale_applies_to_every_kind_of_value() {
    type S = Scale<i64, UnknownUnit, UnknownUnit>;
    let s = S::new(2);
    assert_eq!(s.transform(Point2::new(1, 2)), Point2::new(2, 4));
    assert_eq!(s.transform(Point3::new(1, 2, 3)), Point3::new(2, 4, 6));
    assert_eq!(s.transform(Vector2::<i64, UnknownUnit>::new(1, 2)), Vector2::new(2, 4));
    assert_eq!(s.transform(Vector3::<i64, UnknownUnit>::new(1, 2, 3)), Vector3::new(2, 4, 6));
    assert_eq!(s.transform(Size2::new(1, 2)), Size2::new(2, 4));
    assert_eq!(s.transform(Size3::new(1, 2, 3)), Size3::new(2, 4, 6));
    let n2: Vector2<i64, Normal<UnknownUnit>> = Vector2::new(4, 7);
    assert_eq!(s.transform(n2), Vector2::new(2, 3));
    let n3: Vector3<i64, Normal<UnknownUnit>> = Vector3::new(4, -7, 1);
    assert_eq!(s.transform(n3), Vector3::new(2, -3, 0));
    assert_eq!(
        s.transform(Box2::new(Point2::new(1, 2), Point2::new(3, 4))),
        Box2::new(Point2::new(2, 4), Point2::new(6, 8))
    );
    assert_eq!(
        s.transform(Box3::new(Point3::new(1, 2, 3), Point3::new(3, 4, 5))),
        Box3::new(Point3::new(2, 4, 6), Point3::new(6, 8, 10))
    );
}

#[test]
fn values_scale_with_operators() {
    type S = Scale<i64, UnknownUnit, UnknownUnit>;
    let s = S::new(2);
    assert_eq!(Vector2::new(1, 2) * s, Vector2::new(2, 4));
    assert_eq!(Vector2::new(2, 5) / s, Vector2::new(1, 2));
    assert_eq!(Vector3::new(1, 2, 3) * s, Vector3::new(2, 4, 6));
    assert_eq!(Vector3::new(2, 5, 6) / s, Vector3::new(1, 2, 3));
    assert_eq!(Point2::new(1, 2) * s, Point2::new(2, 4));
    assert_eq!(Point2::new(2, 5) / s, Point2::new(1, 2));
    assert_eq!(Point3::new(1, 2, 3) * s, Point3::new(2, 4, 6));
    assert_eq!(Point3::new(2, 5, 6) / s, Point3::new(1, 2, 3));
    assert_eq!(Size2::new(1, 2) * s, Size2::new(2, 4));
    assert_eq!(Size2::new(2, 5) / s, Size2::new(1, 2));
    assert_eq!(Size3::new(1, 2, 3) * s, Size3::new(2, 4, 6));
    assert_eq!(Size3::new(2, 5, 6) / s, Size3::new(1, 2, 3));
    assert_eq!(
        Box2::new(Point2::new(1, 2), Point2::new(3, 4)) * s,
        Box2::new(Point2::new(2, 4), Point2::new(6, 8))
    );
    assert_eq!(
        Box2::new(Point2::new(2, 4), Point2::new(6, 9)) / s,
        Box2::new(Point2::new(1, 2), Point2::new(3, 4))
    );
    assert_eq!(
        Box3::new(Point3::new(1, 2, 3), Point3::new(3, 4, 5)) * s,
        Box3::new(Point3::new(2, 4, 6), Point3::new(6, 8, 10))
    );
    assert_eq!(
        Box3::new(Point3::new(2, 4, 6), Point3::new(6, 8, 11)) / s,
        Box3::new(Point3::new(1, 2, 3), Point3::new(3, 4, 5))
    );
}

#[test]
fn translation_composes_by_addition_and_inverts_by_negation() {
    type T2 = Translation2<i64, UnknownUnit, UnknownUnit>;
    type T3 = Translation3<i64, UnknownUnit, UnknownUnit>;
    let t = T2::new(3, -4);
    assert_eq!(T2::splat(2), T2::new(2, 2));
    assert_eq!(t.to_vector(), Vector2::new(3, -4));
    assert_eq!(T2::from(Vector2::new(3, -4)), t);
    assert_eq!(t + T2::new(1, 1), T2::new(4, -3));
    assert_eq!(t - T2::new(1, 1), T2::new(2, -5));
    assert_eq!(t.inverse(), T2::new(-3, 4));
    assert!(<T2 as Transformation<i64, UnknownUnit, UnknownUnit>>::identity().is_identity());
    assert_eq!(<T2 as Zero>::zero(), T2::new(0, 0));
    assert!(!t.is_identity());
    let u = T3::new(1, 2, 3);
    assert_eq!(T3::splat(2), T3::new(2, 2, 2));
    assert_eq!(u.to_vector(), Vector3::new(1, 2, 3));
    assert_eq!(T3::from(Vector3::new(1, 2, 3)), u);
    assert_eq!(u + u, T3::new(2, 4, 6));
    assert_eq!(u - T3::new(1, 1, 1), T3::new(0, 1, 2));
    assert_eq!(u.inverse(), T3::new(-1, -2, -3));
    assert_eq!(u.into_inverse().inverse(), u);
    assert!(<T3 as Transformation<i64, UnknownUnit, UnknownUnit>>::identity().is_identity());
    assert!(!T3::new(0, 0, 1).is_identity());
    assert_eq!(u.clone(), u);
}

#[test]
fn translation_moves_points_and_boxes_but_not_directions() {
    type T2 = Translation2<i64, UnknownUnit, UnknownUnit>;
    type T3 = Translation3<i64, UnknownUnit, UnknownUnit>;
    let t = T2::new(3, -4);
    assert_eq!(t.transform(Point2::new(1, 1)), Point2::new(4, -3));
    assert_eq!(t.transform(Vector2::<i64, UnknownUnit>::new(1, 1)), Vector2::new(1, 1));
    let n: Vector2<i64, Normal<UnknownUnit>> = Vector2::new(1, 1);
    assert_eq!(t.transform(n), Vector2::new(1, 1));
    assert_eq!(t.transform(Size2::new(5, 6)), Size2::new(5, 6));
    assert_eq!(
        t.transform(Box2::new(Point2::new(0, 0), Point2::new(1, 1))),
        Box2::new(Point2::new(3, -4), Point2::new(4, -3))
    );
    let u = T3::new(1, 2, 3);
    assert_eq!(u.transform(Point3::new(1, 1, 1)), Point3::new(2, 3, 4));
    assert_eq!(u.transform(Vector3::<i64, UnknownUnit>::new(2, 2, 2)), Vector3::new(2, 2, 2));
    let n3: Vector3<i64, Normal<UnknownUnit>> = Vector3::new(1, 1, 1);
    assert_eq!(u.transform(n3), Vector3::new(1, 1, 1));
    assert_eq!(u.transform(Size3::new(5, 6, 7)), Size3::new(5, 6, 7));
    assert_eq!(
        u.transform(Box3::new(Point3::new(0, 0, 0), Point3::new(1, 1, 1))),
        Box3::new(Point3::new(1, 2, 3), Point3::new(2, 3, 4))
    );
}

#[test]
fn homogeneous_vector_conversions() {
    type H = HomogeneousVector<i64, UnknownUnit>;
    assert_eq!(H::from(Vector2::new(1, 2)), H::new(1, 2, 0, 0));
    assert_eq!(H::from(Vector3::new(1, 2, 3)), H::new(1, 2, 3, 0));
    assert_eq!(H::from(Point2::new(1, 2)), H::new(1, 2, 0, 1));
    assert_eq!(H::from(Point3::new(1, 2, 3)), H::new(1, 2, 3, 1));
    assert_eq!(Point3::try_from(H::new(4, 5, 6, 1)), Ok(Point3::new(4, 5, 6)));
    assert_eq!(Point2::try_from(H::new(4, 5, 6, 1)), Ok(Point2::new(4, 5)));
    assert_eq!(Point3::try_from(H::new(2, 4, 6, 2)), Ok(Point3::new(1, 2, 3)));
    assert_eq!(Point3::try_from(H::new(4, 5, 6, 2)), Ok(Point3::new(2, 2, 3)));
    assert_eq!(Point3::try_from(H::new(-4, -5, 7, 2)), Ok(Point3::new(-2, -2, 3)));
    assert_eq!(Point3::try_from(H::new(1, 2, 3, 9)), Ok(Point3::new(0, 0, 0)));
    assert_eq!(Point2::try_from(H::new(6, 9, 0, 3)), Ok(Point2::new(2, 3)));
    assert_eq!(Point2::try_from(H::new(4, -5, 6, 3)), Ok(Point2::new(1, -1)));
    assert_eq!(Point3::try_from(H::new(4, 5, 6, 0)), Err(()));
    assert_eq!(Point3::try_from(H::new(4, 5, 6, -1)), Err(()));
    assert_eq!(Point2::try_from(H::new(4, 5, 6, 0)), Err(()));
    assert_eq!(Point2::try_from(H::new(4, 5, 6, -2)), Err(()));
    assert_eq!(H::new(1, 2, 3, 4).clone(), H::new(1, 2, 3, 4));
}

#[test]
fn ray_reaches_points_along_its_direction() {
    let r: Ray<i64, UnknownUnit> = Ray::new(Point3::new(1, 2, 3), Vector3::new(1, 0, -1));
    assert_eq!(r.at(Time(0)), Point3::new(1, 2, 3));
    assert_eq!(r.at(Time(5)), Point3::new(6, 2, -2));
    assert_eq!(r.at(Time(-1)), Point3::new(0, 2, 4));
    let tagged = Ray::with_data(r.origin, r.dir, 42u8);
    assert_eq!(tagged.data, 42);
    assert_eq!(tagged.at(Time(2)), Point3::new(3, 2, 1));
    assert_eq!(tagged.clone().data, 42);
}

#[test]
fn masks_combine_componentwise() {
    let a = Mask2::new(true, false);
    let b = Mask2::new(true, true);
    assert!(!a.all());
    assert!(a.any());
    assert!(!a.none());
    assert!(b.all());
    assert!(Mask2::new(false, false).none());
    assert_eq!(a.not(), Mask2::new(false, true));
    assert_eq!(a.and(b), a);
    assert_eq!(a.or(b), b);
    assert_eq!(a.get(Axis2::X), true);
    assert_eq!(a.get(Axis2::Y), false);
    let mut m = a;
    m.set(Axis2::Y, true);
    assert_eq!(m, b);
    let c = Mask3::new(true, false, true);
    assert!(!c.all());
    assert!(c.any());
    assert!(!c.none());
    assert!(Mask3::new(true, true, true).all());
    assert!(Mask3::new(false, false, false).none());
    assert_eq!(c.not(), Mask3::new(false, true, false));
    assert_eq!(c.and(Mask3::new(false, false, true)), Mask3::new(false, false, true));
    assert_eq!(c.or(Mask3::new(false, true, false)), Mask3::new(true, true, true));
    assert_eq!(c.get(Axis3::Z), true);
    let mut n = c;
    n.set(Axis3::X, false);
    assert_eq!(n, Mask3::new(false, false, true));
}

#[test]
fn masks_select_componentwise() {
    let m = Mask2::new(true, false);
    let p: Point2<i64, UnknownUnit> = m.select(Point2::new(1, 2), Point2::new(10, 20));
    assert_eq!(p, Point2::new(1, 20));
    let v: Vector2<i64, UnknownUnit> = m.select(Vector2::new(1, 2), Vector2::new(10, 20));
    assert_eq!(v, Vector2::new(1, 20));
    let k = Mask3::new(false, true, false);
    let q: Point3<i64, UnknownUnit> = k.select(Point3::new(1, 2, 3), Point3::new(10, 20, 30));
    assert_eq!(q, Point3::new(10, 2, 30));
    let w: Vector3<i64, UnknownUnit> = k.select(Vector3::new(1, 2, 3), Vector3::new(10, 20, 30));
    assert_eq!(w, Vector3::new(10, 2, 30));
}

#[test]
fn axes_cycle() {
    assert_eq!(Axis2::X.next(), Axis2::Y);
    assert_eq!(Axis2::Y.next(), Axis2::X);
    assert_eq!(Axis3::X.next(), Axis3::Y);
    assert_eq!(Axis3::Y.next(), Axis3::Z);
    assert_eq!(Axis3::Z.next(), Axis3::X);
    assert_eq!(Axis2::axes(), [Axis2::X, Axis2::Y]);
    assert_eq!(Axis3::axes(), [Axis3::X, Axis3::Y, Axis3::Z]);
}

#[test]
fn lengths_scales_angles_and_times_are_ordered() {
    type L = Length<i64, UnknownUnit>;
    assert!(L::new(3) < L::new(4));
    assert!(L::new(4) > L::new(3));
    assert!(L::new(3) <= L::new(3));
    assert!(L::new(3) >= L::new(3));
    assert!(!(L::new(3) < L::new(3)));
    assert_eq!(L::new(3).partial_cmp(&L::new(4)), Some(std::cmp::Ordering::Less));
    assert_eq!(L::new(4).partial_cmp(&L::new(4)), Some(std::cmp::Ordering::Equal));
    assert_eq!(L::new(5).partial_cmp(&L::new(4)), Some(std::cmp::Ordering::Greater));
    type S = Scale<i64, UnknownUnit, UnknownUnit>;
    assert!(S::new(-1) < S::new(1));
    assert_eq!(S::new(2).partial_cmp(&S::new(1)), Some(std::cmp::Ordering::Greater));
    assert!(Angle::from_radians(1i64) < Angle::from_radians(2));
    assert!(Time(5i64) > Time(2));
}

#[test]
fn defaults_are_zero() {
    assert_eq!(Vector2::<i64, UnknownUnit>::default(), Vector2::new(0, 0));
    assert_eq!(Vector3::<i64, UnknownUnit>::default(), Vector3::new(0, 0, 0));
    assert_eq!(Point2::<i64, UnknownUnit>::default(), Point2::new(0, 0));
    assert_eq!(Point3::<i64, UnknownUnit>::default(), Point3::new(0, 0, 0));
    assert_eq!(Size2::<i32, UnknownUnit>::default(), Size2::new(0, 0));
    assert_eq!(Size3::<i32, UnknownUnit>::default(), Size3::new(0, 0, 0));
}

#[test]
fn rays_compare_by_origin_direction_and_payload() {
    let a: Ray<i64, UnknownUnit, u8> = Ray::with_data(Point3::new(1, 2, 3), Vector3::new(1, 0, 0), 7);
    let b: Ray<i64, UnknownUnit, u8> = Ray::with_data(Point3::new(1, 2, 3), Vector3::new(1, 0, 0), 7);
    let c: Ray<i64, UnknownUnit, u8> = Ray::with_data(Point3::new(1, 2, 3), Vector3::new(1, 0, 0), 8);
    let d: Ray<i64, UnknownUnit, u8> = Ray::with_data(Point3::new(1, 2, 3), Vector3::new(0, 1, 0), 7);
    assert!(a == b);
    assert!(a != c);
    assert!(a != d);
}

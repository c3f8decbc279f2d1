use typed_geometry::bounds::Box3;
use typed_geometry::num::Zero;
use typed_geometry::point::Point3;
use typed_geometry::rotation::{Rotation2, Rotation3};
use typed_geometry::size::{Size2, Size3};
use typed_geometry::space::{Normal, UnknownUnit};
use typed_geometry::transform::{Transform, Transformation};
use typed_geometry::units::Angle;
use typed_geometry::vector::Vector3;

type R = Rotation3<i64, UnknownUnit, UnknownUnit>;
type P = Point3<i64, UnknownUnit>;
type V = Vector3<i64, UnknownUnit>;

#[test]
fn quaternion_identity() {
    let id = <R as Transformation<i64, UnknownUnit, UnknownUnit>>::identity();
    assert_eq!(id, R::new_unchecked(1, 0, 0, 0));
    assert!(id.is_identity());
    assert!(!R::new_unchecked(0, 1, 0, 0).is_identity());
    assert!(!R::new_unchecked(1, 0, 0, 1).is_identity());
    assert_eq!(id.transform(P::new(1, 2, 3)), P::new(1, 2, 3));
}

#[test]
fn quaternion_parts_and_norm() {
    let q = R::new_unchecked(1, 2, 3, 4);
    assert_eq!(q.vector_part(), V::new(2, 3, 4));
    assert_eq!(q.norm_squared(), 30);
    assert!(!q.is_normalized());
    assert!(R::new_unchecked(0, 0, -1, 0).is_normalized());
    assert!(!R::new_unchecked(0, 0, 0, 0).is_normalized());
}

#[test]
fn quaternion_arithmetic() {
    let q = R::new_unchecked(1, 2, 3, 4);
    assert_eq!(q.add(R::new_unchecked(10, 20, 30, 40)), R::new_unchecked(11, 22, 33, 44));
    assert_eq!(q.sub(R::new_unchecked(10, 20, 30, 40)), R::new_unchecked(-9, -18, -27, -36));
    assert_eq!(q.mul(-2), R::new_unchecked(-2, -4, -6, -8));
}

#[test]
fn quaternion_inverse_is_conjugate() {
    let q = R::new_unchecked(1, 2, -3, 4);
    assert_eq!(q.inverse(), R::new_unchecked(1, -2, 3, -4));
    assert_eq!(q.into_inverse().inverse(), q);
}

#[test]
fn half_turns_compose() {
    let x = R::new_unchecked(0, 1, 0, 0);
    let y = R::new_unchecked(0, 0, 1, 0);
    let z = R::new_unchecked(0, 0, 0, 1);
    assert_eq!(R::then(&x, &y), R::new_unchecked(0, 0, 0, -1));
    assert_eq!(R::then(&y, &x), z);
    assert_eq!(R::then(&x, &x), R::new_unchecked(-1, 0, 0, 0));
    assert_eq!(R::then(&x, &x.inverse()), R::new_unchecked(1, 0, 0, 0));
    assert!(R::then(&x, &y).is_normalized());
}

#[test]
fn half_turn_about_z_rotates_point() {
    let z = R::new_unchecked(0, 0, 0, 1);
    assert_eq!(z.transform(P::new(1, 2, 3)), P::new(-1, -2, 3));
    assert_eq!(z.transform(V::new(1, 2, 3)), V::new(-1, -2, 3));
    let n: Vector3<i64, Normal<UnknownUnit>> = Vector3::new(0, 1, 0);
    assert_eq!(z.transform(n), Vector3::new(0, -1, 0));
    assert_eq!(z.transform(Size3::new(1, 2, 3)), Size3::new(1, 2, 3));
    let x = R::new_unchecked(0, 1, 0, 0);
    assert_eq!(x.transform(P::new(1, 2, 3)), P::new(1, -2, -3));
}

#[test]
fn rotation3_refits_box_around_all_corners() {
    let z = R::new_unchecked(0, 0, 0, 1);
    let b = Box3::new(P::new(1, 2, 3), P::new(4, 6, 8));
    let turned = z.transform(b);
    assert_eq!(turned, Box3::new(P::new(-4, -6, 3), P::new(-1, -2, 8)));
    assert!(!turned.is_empty());
    assert!(turned.contains(z.transform(P::new(2, 3, 4))));
    let x = R::new_unchecked(0, 1, 0, 0);
    assert_eq!(x.transform(b), Box3::new(P::new(1, -6, -8), P::new(4, -2, -3)));
    let id = R::new_unchecked(1, 0, 0, 0);
    assert_eq!(id.transform(b), b);
}

#[test]
fn rotation2_identity_and_inverse() {
    type R2 = Rotation2<i64, UnknownUnit, UnknownUnit>;
    let zero = <R2 as Zero>::zero();
    assert!(zero.is_identity());
    assert_eq!(<R2 as Transformation<i64, UnknownUnit, UnknownUnit>>::identity(), zero);
    let r = R2::new(Angle::from_radians(3));
    assert!(!r.is_identity());
    assert_eq!(r.inverse(), R2::new(Angle::from_radians(-3)));
    assert_eq!(r.transform(Size2::new(4, 5)), Size2::new(4, 5));
    assert_eq!(r.clone(), r);
}

#[test]
fn quaternion_dot_product() {
    assert_eq!(R::new_unchecked(1, 2, 3, 4).dot(&R::new_unchecked(5, 6, 7, 8)), 70);
    assert_eq!(R::new_unchecked(0, 1, 0, 0).dot(&R::new_unchecked(0, -1, 0, 0)), -1);
    assert_eq!(R::new_unchecked(0, 1, 0, 0).dot(&R::new_unchecked(0, 0, 1, 0)), 0);
}

#[test]
fn shorter_arc_flips_the_far_representative() {
    let x = R::new_unchecked(0, 1, 0, 0);
    let minus_x = R::new_unchecked(0, -1, 0, 0);
    let y = R::new_unchecked(0, 0, 1, 0);
    assert_eq!(x.shorter_arc(&minus_x), (x, 1));
    assert_eq!(x.shorter_arc(&x), (x, 1));
    assert_eq!(x.shorter_arc(&y), (y, 0));
    assert_eq!(minus_x.shorter_arc(&x), (minus_x, 1));
    let long = R::new_unchecked(0, 5, 0, 0);
    assert_eq!(x.shorter_arc(&long), (long, 1));
    assert_eq!(minus_x.shorter_arc(&long), (R::new_unchecked(0, -5, 0, 0), 1));
}

#[test]
fn blend_reaches_both_ends() {
    let q = R::new_unchecked(1, 2, 3, 4);
    let r = R::new_unchecked(5, 6, 7, 8);
    assert_eq!(q.blend(&r, 0), q);
    assert_eq!(q.blend(&r, 1), r);
    assert_eq!(q.blend(&r, 2), R::new_unchecked(9, 10, 11, 12));
    assert_eq!(q.blend(&r, -1), R::new_unchecked(-3, -2, -1, 0));
}

#[test]
fn product_turns_as_the_two_in_turn() {
    let units = [
        R::new_unchecked(1, 0, 0, 0),
        R::new_unchecked(0, 1, 0, 0),
        R::new_unchecked(0, 0, 1, 0),
        R::new_unchecked(0, 0, 0, 1),
        R::new_unchecked(-1, 0, 0, 0),
        R::new_unchecked(0, 0, -1, 0),
    ];
    let v = V::new(2, -3, 5);
    for first in units.iter() {
        for second in units.iter() {
            let both = R::then(first, second);
            assert!(both.is_normalized());
            assert_eq!(both.transform(v), second.transform(first.transform(v)));
        }
    }
    let x = R::new_unchecked(0, 1, 0, 0);
    let y = R::new_unchecked(0, 0, 1, 0);
    assert_eq!(R::then(&x, &y).transform(v), V::new(-2, 3, 5));
}

#[test]
fn euler_quaternion_is_yaw_times_pitch_times_roll() {
    let roll = R::new_unchecked(0, 1, 0, 0);
    let pitch = R::new_unchecked(1, 0, 0, 0);
    let yaw = R::new_unchecked(0, 0, 0, 1);
    let euler = R::from_half_angle_sin_cos(1, 0, 0, 1, 1, 0);
    assert_eq!(euler, R::new_unchecked(0, 0, 1, 0));
    assert_eq!(euler, R::then(&R::then(&roll, &pitch), &yaw));
    assert!(euler.is_normalized());
    let quarter_turns = R::from_half_angle_sin_cos(1, 0, 1, 0, 0, -1);
    assert!(quarter_turns.is_normalized());
    assert_eq!(R::from_half_angle_sin_cos(2, 3, 5, 7, 11, 13).norm_squared(), 13 * 74 * 290);
}

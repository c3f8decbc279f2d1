use typed_geometry::point::Point3;
use typed_geometry::rotation::Rotation3;
use typed_geometry::space::UnknownUnit;
use typed_geometry::transform::{Transform, Transformation};
use typed_geometry::transform3::Transform3;
use typed_geometry::units::Length;
use typed_geometry::vector::Vector3;

#[test]
fn rotation_from_half_angle_fills_every_entry() {
    type M = Transform3<i64, UnknownUnit, UnknownUnit>;
    let r = M::rotation_from_half_angle(Vector3::new(1, 2, 3), 2, 3);
    let m = [
        [1 - 2 * (4 + 9) * 4, 2 * (2 * 4 + 3 * 6), 2 * (3 * 4 - 2 * 6), 0],
        [2 * (2 * 4 - 3 * 6), 1 - 2 * (1 + 9) * 4, 2 * (6 * 4 + 6), 0],
        [2 * (3 * 4 + 2 * 6), 2 * (6 * 4 - 6), 1 - 2 * (1 + 4) * 4, 0],
        [0, 0, 0, 1],
    ];
    let rows = [
        Vector3::<i64, UnknownUnit>::new(1, 0, 0),
        Vector3::new(0, 1, 0),
        Vector3::new(0, 0, 1),
    ];
    for i in 0..3 {
        let image: Vector3<i64, UnknownUnit> = r.transform(rows[i]);
        assert_eq!(image, Vector3::new(m[i][0], m[i][1], m[i][2]));
        let back: Vector3<i64, UnknownUnit> = r.inverse().transform(rows[i]);
        assert_eq!(back, Vector3::new(m[0][i], m[1][i], m[2][i]));
    }
}

#[test]
fn perspective_projections_from_sine_and_cosine() {
    type M = Transform3<i64, UnknownUnit, UnknownUnit>;
    let lh = M::perspective_lh_from_sin_cos(1, 2, 1, Length::new(1), Length::new(2));
    assert_eq!(lh, M::new([[2, 0, 0, 0], [0, 2, 0, 0], [0, 0, 2, 1], [0, 0, -2, 0]]));
    assert_eq!(lh.transform_point3(Point3::new(1, 1, 1)), Ok(Point3::new(2, 2, 0)));
    assert_eq!(lh.transform_point3(Point3::new(1, 1, -1)), Err(()));
    let rh = M::perspective_rh_from_sin_cos(1, 2, 2, 2, 1);
    assert_eq!(rh, M::new([[1, 0, 0, 0], [0, 2, 0, 0], [0, 0, 1, -1], [0, 0, 2, 0]]));
    assert_eq!(rh.transform_point3(Point3::new(1, 1, -1)), Ok(Point3::new(1, 2, 1)));
    assert_eq!(rh.transform_point3(Point3::new(1, 1, 1)), Err(()));
}

#[test]
fn view_matrix_from_axis_aligned_basis() {
    type M = Transform3<i64, UnknownUnit, UnknownUnit>;
    let m = M::look_to_rh_from_basis(
        Point3::new(1, 2, 3),
        Vector3::new(0, 0, -1),
        Vector3::new(1, 0, 0),
    );
    assert_eq!(m, M::new([[1, 0, 0, 0], [0, 1, 0, 0], [0, 0, 1, 0], [-1, -2, -3, 1]]));
    assert_eq!(m.transform_point3(Point3::new(1, 2, 3)), Ok(Point3::new(0, 0, 0)));
}

#[test]
fn quaternion_from_euler_sines_and_cosines() {
    type R = Rotation3<i64, UnknownUnit, UnknownUnit>;
    assert_eq!(R::from_half_angle_sin_cos(0, 1, 0, 1, 0, 1), R::new_unchecked(1, 0, 0, 0));
    assert_eq!(R::from_half_angle_sin_cos(1, 0, 0, 1, 0, 1), R::new_unchecked(0, 1, 0, 0));
    assert_eq!(R::from_half_angle_sin_cos(0, 1, 1, 0, 0, 1), R::new_unchecked(0, 0, 1, 0));
    assert_eq!(R::from_half_angle_sin_cos(0, 1, 0, 1, 1, 0), R::new_unchecked(0, 0, 0, 1));
    assert_eq!(R::from_half_angle_sin_cos(2, 3, 5, 7, 11, 13), R::new_unchecked(383, 17, 349, 101));
    assert!(R::from_half_angle_sin_cos(0, 1, 0, 1, 0, 1).is_identity());
}

#[test]
fn quaternion_around_unit_axis() {
    type R = Rotation3<i64, UnknownUnit, UnknownUnit>;
    type M = Transform3<i64, UnknownUnit, UnknownUnit>;
    assert_eq!(R::around_unit_axis(Vector3::new(0, 0, 1), 0, 1), R::new_unchecked(1, 0, 0, 0));
    assert!(R::around_unit_axis(Vector3::new(0, 0, 1), 0, 1).is_identity());
    assert_eq!(R::around_unit_axis(Vector3::new(0, 0, 1), 1, 0), R::new_unchecked(0, 0, 0, 1));
    assert_eq!(R::around_unit_axis(Vector3::new(0, 1, 0), 1, 0), R::new_unchecked(0, 0, 1, 0));
    assert_eq!(R::around_unit_axis(Vector3::new(1, 2, 3), 2, 5), R::new_unchecked(5, 2, 4, 6));
    assert!(R::around_unit_axis(Vector3::new(-1, 0, 0), 1, 0).is_normalized());
    let about_z = R::around_unit_axis(Vector3::new(0, 0, 1), 1, 0);
    assert_eq!(about_z.transform(Point3::new(1, 2, 3)), Point3::new(-1, -2, 3));
    assert_eq!(
        M::from_rotation(about_z),
        M::rotation_from_half_angle(Vector3::new(0, 0, 1), 1, 0)
    );
    assert_eq!(
        M::from_rotation(R::around_unit_axis(Vector3::new(1, 0, 0), 1, 0)),
        M::rotation_from_half_angle(Vector3::new(1, 0, 0), 1, 0)
    );
}

#[test]
fn half_turn_from_half_angle_sine_and_cosine() {
    type M = Transform3<i64, UnknownUnit, UnknownUnit>;
    let r = M::rotation_from_half_angle(Vector3::new(0, 0, 1), 1, 0);
    assert_eq!(r.transform_point3(Point3::new(1, 2, 3)), Ok(Point3::new(-1, -2, 3)));
    assert_eq!(r.inverse().transform_point3(Point3::new(-1, -2, 3)), Ok(Point3::new(1, 2, 3)));
    let about_x = M::rotation_from_half_angle(Vector3::new(1, 0, 0), 1, 0);
    assert_eq!(about_x.transform_point3(Point3::new(1, 2, 3)), Ok(Point3::new(1, -2, -3)));
    assert_eq!(M::rotation_from_half_angle(Vector3::new(0, 1, 0), 0, 1), M::identity());
}

#[test]
fn turn_about_an_axis_keeps_the_axis() {
    type R = Rotation3<i64, UnknownUnit, UnknownUnit>;
    type M = Transform3<i64, UnknownUnit, UnknownUnit>;
    let axis = Vector3::<i64, UnknownUnit>::new(1, 2, 3);
    let m = M::rotation_from_half_angle(axis, 2, 3);
    let image: Vector3<i64, UnknownUnit> = m.transform(axis);
    assert_eq!(image, axis);
    let q = R::around_unit_axis(axis, 2, 3);
    assert_eq!(q.transform(axis), axis);
    let unit = Vector3::<i64, UnknownUnit>::new(0, -1, 0);
    let half_turn = M::rotation_from_half_angle(unit, 1, 0);
    assert_eq!(half_turn.determinant(), 1);
    let kept: Vector3<i64, UnknownUnit> = half_turn.transform(unit);
    assert_eq!(kept, unit);
    assert_eq!(M::from_rotation(R::around_unit_axis(unit, 1, 0)).determinant(), 1);
}

#[test]
fn view_matrix_looks_down_the_negative_third_axis() {
    type M = Transform3<i64, UnknownUnit, UnknownUnit>;
    let eye = Point3::new(1, 2, 3);
    let forward = Vector3::<i64, UnknownUnit>::new(1, 0, 0);
    let right = Vector3::<i64, UnknownUnit>::new(0, 0, 1);
    let m = M::look_to_rh_from_basis(eye, forward, right);
    assert_eq!(m, M::new([[0, 0, -1, 0], [0, 1, 0, 0], [1, 0, 0, 0], [-3, -2, 1, 1]]));
    assert_eq!(m.determinant(), 1);
    assert_eq!(m.transform_point3(eye), Ok(Point3::new(0, 0, 0)));
    assert_eq!(m.transform_point3(Point3::new(5, 2, 3)), Ok(Point3::new(0, 0, -4)));
    let ahead: Vector3<i64, UnknownUnit> = m.transform(forward);
    assert_eq!(ahead, Vector3::new(0, 0, -1));
    let side: Vector3<i64, UnknownUnit> = m.transform(right);
    assert_eq!(side, Vector3::new(1, 0, 0));
    let up: Vector3<i64, UnknownUnit> = m.transform(right.cross(forward));
    assert_eq!(up, Vector3::new(0, 1, 0));
    assert_eq!(m.inverse().transform_point3(Point3::new(0, 0, 0)), Ok(eye));
}

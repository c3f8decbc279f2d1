use typed_geometry::bounds::Box3;
use typed_geometry::homogen::HomogeneousVector;
use typed_geometry::point::Point3;
use typed_geometry::rotation::Rotation3;
use typed_geometry::scale::Scale;
use typed_geometry::space::{Normal, UnknownUnit};
use typed_geometry::transform::{Transform, Transformation};
use typed_geometry::transform3::Transform3;
use typed_geometry::translation::Translation3;
use typed_geometry::vector::Vector3;

type M = Transform3<i64, UnknownUnit, UnknownUnit>;
type V = Vector3<i64, UnknownUnit>;
type N = Vector3<i64, Normal<UnknownUnit>>;
type P = Point3<i64, UnknownUnit>;

const QUARTER_TURN_Z: [[i64; 4]; 4] = [[0, 1, 0, 0], [-1, 0, 0, 0], [0, 0, 1, 0], [0, 0, 0, 1]];

#[test]
pub fn test_translation() {
    let t1 = &M::translation(V::new(1, 2, 3));
    let t2 = t1 * M::identity();
    let t3 = M::identity() * t1;
    assert_eq!(t1, &t2);
    assert_eq!(t1, &t3);
    assert_eq!(t1.transform_point3(Point3::splat(1)), Ok(Point3::new(2, 3, 4)));
    assert_eq!(Transform::transform(t1, V::splat(2)), V::splat(2));
    assert_eq!(Transform::transform(t1, N::splat(1)), N::splat(1));
    assert_eq!(t1 * t1, M::translation(V::new(2, 4, 6)));
}

#[test]
pub fn test_rotation() {
}

#[test]
fn identity_is_identity() {
    assert!(M::identity().is_identity());
    assert!(<M as Transformation<i64, UnknownUnit, UnknownUnit>>::identity().is_identity());
    assert!(!M::translation(V::new(0, 0, 1)).is_identity());
    assert!(M::translation(V::new(0, 0, 0)).is_identity());
}

#[test]
fn determinant_of_diagonal_matrix() {
    let m = [[2, 0, 0, 0], [0, 3, 0, 0], [0, 0, 4, 0], [0, 0, 0, 1]];
    assert_eq!(M::mat_determinant(m), 24);
}

#[test]
fn determinant_of_dense_matrix() {
    let m = [[1, 2, 0, 1], [0, 1, 3, 2], [2, 0, 1, 1], [1, 1, 0, 3]];
    assert_eq!(M::mat_determinant(m), 31);
}

#[test]
fn determinant_changes_sign_when_rows_swap() {
    let m = [[0, 1, 0, 0], [1, 0, 0, 0], [0, 0, 1, 0], [0, 0, 0, 1]];
    assert_eq!(M::mat_determinant(m), -1);
    assert_eq!(M::new(m).determinant(), -1);
}

#[test]
fn singular_matrix_has_no_inverse() {
    let m = [[1, 2, 3, 4], [2, 4, 6, 8], [0, 0, 1, 0], [0, 0, 0, 1]];
    assert_eq!(M::mat_determinant(m), 0);
    assert_eq!(M::mat_inverse(m), None);
    assert!(M::try_new(m).is_none());
    assert!(M::try_new([[0; 4]; 4]).is_none());
}

#[test]
fn inverse_of_translation_matrix() {
    let m = [[1, 0, 0, 0], [0, 1, 0, 0], [0, 0, 1, 0], [1, 2, 3, 1]];
    let inv = M::mat_inverse(m);
    assert_eq!(inv, Some([[1, 0, 0, 0], [0, 1, 0, 0], [0, 0, 1, 0], [-1, -2, -3, 1]]));
}

#[test]
fn inverse_of_unimodular_matrix_is_exact() {
    let m = [[1, 1, 0, 0], [0, 1, 1, 0], [0, 0, 1, 0], [2, 0, 5, 1]];
    assert_eq!(M::mat_determinant(m), 1);
    let inv = M::mat_inverse(m).unwrap();
    assert_eq!(M::matmul(m, inv), [[1, 0, 0, 0], [0, 1, 0, 0], [0, 0, 1, 0], [0, 0, 0, 1]]);
    assert_eq!(M::matmul(inv, m), [[1, 0, 0, 0], [0, 1, 0, 0], [0, 0, 1, 0], [0, 0, 0, 1]]);
}

#[test]
fn inverse_of_matrix_with_larger_determinant_rounds_to_zero() {
    let m = [[2, 0, 0, 0], [0, 1, 0, 0], [0, 0, 1, 0], [0, 0, 0, 1]];
    assert_eq!(M::mat_inverse(m), Some([[0; 4]; 4]));
}

#[test]
fn transpose_swaps_rows_and_columns() {
    let m = [[1, 2, 3, 4], [5, 6, 7, 8], [9, 10, 11, 12], [13, 14, 15, 16]];
    assert_eq!(
        M::mat_transpose(m),
        [[1, 5, 9, 13], [2, 6, 10, 14], [3, 7, 11, 15], [4, 8, 12, 16]]
    );
}

#[test]
fn matmul_of_two_matrices() {
    let a = [[1, 2, 0, 0], [0, 1, 0, 0], [0, 0, 1, 0], [0, 0, 0, 1]];
    let b = [[1, 0, 0, 0], [3, 1, 0, 0], [0, 0, 1, 0], [0, 0, 0, 1]];
    assert_eq!(M::matmul(a, b), [[7, 2, 0, 0], [3, 1, 0, 0], [0, 0, 1, 0], [0, 0, 0, 1]]);
    assert_eq!(M::matmul(b, a), [[1, 2, 0, 0], [3, 7, 0, 0], [0, 0, 1, 0], [0, 0, 0, 1]]);
}

#[test]
fn round_trip_through_inverse_recovers_point() {
    let t = M::new(QUARTER_TURN_Z) * M::translation(V::new(5, -7, 2));
    let p = P::new(3, 4, 5);
    let q = t.transform_point3(p).unwrap();
    assert_eq!(q, P::new(1, -4, 7));
    assert_eq!(t.inverse().transform_point3(q), Ok(p));
    assert_eq!(t.into_inverse().inverse(), M::new(QUARTER_TURN_Z) * M::translation(V::new(5, -7, 2)));
}

#[test]
fn inverse_of_product_is_product_of_inverses_reversed() {
    let a = M::new(QUARTER_TURN_Z);
    let b = M::translation(V::new(1, 2, 3));
    let left = (a * b).inverse();
    let right = b.inverse() * a.inverse();
    assert_eq!(left, right);
    assert_eq!(left.inverse(), right.inverse());
}

#[test]
fn point_maps_to_homogeneous_vector() {
    let t = M::translation(V::new(1, 2, 3));
    let h: HomogeneousVector<i64, UnknownUnit> = t.transform(P::new(10, 20, 30));
    assert_eq!(h, HomogeneousVector::new(11, 22, 33, 1));
}

#[test]
fn point_behind_the_eye_is_refused() {
    let flip = M::new([[1, 0, 0, 0], [0, 1, 0, 0], [0, 0, 1, 0], [0, 0, 0, -1]]);
    assert_eq!(flip.transform_point3(P::new(1, 2, 3)), Err(()));
    let b = Box3::new(P::new(0, 0, 0), P::new(1, 1, 1));
    assert_eq!(Transform::transform(&flip, b), None);
}

#[test]
fn point_at_infinity_is_refused() {
    let m = M::new([[1, 0, 0, 1], [0, 1, 0, 0], [0, 0, 1, 0], [0, 0, 0, 1]]);
    assert_eq!(m.transform_point3(P::new(-1, 0, 0)), Err(()));
    assert_eq!(m.transform_point3(P::new(0, 5, 6)), Ok(P::new(0, 5, 6)));
}

#[test]
fn vectors_ignore_translation_but_follow_rotation() {
    let t = M::new(QUARTER_TURN_Z) * M::translation(V::new(5, 5, 5));
    assert_eq!(Transform::transform(&t, V::new(1, 0, 0)), V::new(0, 1, 0));
    assert_eq!(Transform::transform(&t, V::new(0, 1, 0)), V::new(-1, 0, 0));
}

#[test]
fn normals_go_through_inverse_transpose() {
    let s = M::new([[1, 0, 0, 0], [1, 1, 0, 0], [0, 0, 1, 0], [0, 0, 0, 1]]);
    assert_eq!(Transform::transform(&s, N::new(1, 0, 0)), N::new(1, -1, 0));
    assert_eq!(Transform::transform(&s, N::new(0, 1, 0)), N::new(0, 1, 0));
}

#[test]
fn box_under_quarter_turn_is_refitted_tightly() {
    let t = M::new(QUARTER_TURN_Z);
    let b = Box3::new(P::new(1, 2, 3), P::new(4, 6, 8));
    let r = Transform::transform(&t, b).unwrap();
    assert_eq!(r, Box3::new(P::new(-6, 1, 3), P::new(-2, 4, 8)));
}

#[test]
fn box_under_translation_moves() {
    let t = M::translation(V::new(10, 20, 30));
    let b = Box3::new(P::new(1, 2, 3), P::new(4, 6, 8));
    assert_eq!(
        Transform::transform(&t, b),
        Some(Box3::new(P::new(11, 22, 33), P::new(14, 26, 38)))
    );
}

#[test]
fn scale_builder_and_its_cached_inverse() {
    let s = M::scale(Scale::new(-1), Scale::new(1), Scale::new(-1));
    assert_eq!(s.transform_point3(P::new(1, 2, 3)), Ok(P::new(-1, 2, -3)));
    assert_eq!(s.inverse().transform_point3(P::new(-1, 2, -3)), Ok(P::new(1, 2, 3)));
    let big = M::scale(Scale::new(2), Scale::new(3), Scale::new(4));
    assert_eq!(big.transform_point3(P::new(1, 1, 1)), Ok(P::new(2, 3, 4)));
    assert_eq!(big.inverse().transform_point3(P::new(2, 3, 4)), Ok(P::new(0, 0, 0)));
    assert_eq!(M::from_scale(Scale::new(2)), M::scale(Scale::new(2), Scale::new(2), Scale::new(2)));
}

#[test]
fn from_translation_matches_translation() {
    let t = M::from_translation(Translation3::new(1, 2, 3));
    assert_eq!(t, M::translation(V::new(1, 2, 3)));
    assert_eq!(t.inverse(), M::translation(V::new(-1, -2, -3)));
}

#[test]
fn half_turn_quaternion_becomes_matrix() {
    let q: Rotation3<i64, UnknownUnit, UnknownUnit> = Rotation3::new_unchecked(0, 0, 0, 1);
    let m = M::from_rotation(q);
    assert_eq!(m, M::new([[-1, 0, 0, 0], [0, -1, 0, 0], [0, 0, 1, 0], [0, 0, 0, 1]]));
    assert_eq!(m.transform_point3(P::new(1, 2, 3)), Ok(P::new(-1, -2, 3)));
    assert_eq!(M::from_rotation(Rotation3::new_unchecked(1, 0, 0, 0)), M::identity());
    let x: Rotation3<i64, UnknownUnit, UnknownUnit> = Rotation3::new_unchecked(0, 1, 0, 0);
    assert_eq!(
        M::from_rotation(x),
        M::new([[1, 0, 0, 0], [0, -1, 0, 0], [0, 0, -1, 0], [0, 0, 0, 1]])
    );
}

#[test]
fn orthographic_projection_of_unit_ranges() {
    let lh = M::orthographic_lh(-1, 0, -1, 0, 0, 1);
    assert_eq!(lh, M::new([[2, 0, 0, 0], [0, 2, 0, 0], [0, 0, 1, 0], [1, 1, 0, 1]]));
    let rh = M::orthographic_rh(0, 1, 0, 1, 1, 0);
    assert_eq!(rh, M::new([[2, 0, 0, 0], [0, 2, 0, 0], [0, 0, 1, 0], [-1, -1, 1, 1]]));
    assert_eq!(rh.transform_point3(P::new(1, 1, 0)), Ok(P::new(1, 1, 1)));
}

#[test]
fn orthographic_projection_of_the_clip_volume_is_the_identity() {
    assert!(M::orthographic_lh(-1, 1, -1, 1, 0, 1).is_identity());
    assert_eq!(M::orthographic_lh(-1, 1, -1, 1, 0, 1), M::identity());
    assert_eq!(M::orthographic_lh(-1, 1, -1, 1, 0, 1).inverse(), M::identity());
}

#[test]
fn orthographic_projection_of_wider_volumes() {
    let lh = M::orthographic_lh(0, 2, 2, 4, 3, 4);
    assert_eq!(lh, M::new([[1, 0, 0, 0], [0, 1, 0, 0], [0, 0, 1, 0], [-1, -3, -3, 1]]));
    assert_eq!(lh.transform_point3(P::new(0, 2, 3)), Ok(P::new(-1, -1, 0)));
    assert_eq!(lh.transform_point3(P::new(2, 4, 4)), Ok(P::new(1, 1, 1)));
    assert_eq!(lh.inverse().transform_point3(P::new(1, 1, 1)), Ok(P::new(2, 4, 4)));
    let rh = M::orthographic_rh(0, 2, 2, 4, 3, 4);
    assert_eq!(rh, M::new([[1, 0, 0, 0], [0, 1, 0, 0], [0, 0, -1, 0], [-1, -3, -3, 1]]));
    assert_eq!(rh.transform_point3(P::new(0, 2, -3)), Ok(P::new(-1, -1, 0)));
    assert_eq!(rh.transform_point3(P::new(2, 4, -4)), Ok(P::new(1, 1, 1)));
    let narrow = M::orthographic_lh(-2, -1, 5, 4, 0, -1);
    assert_eq!(narrow, M::new([[2, 0, 0, 0], [0, -2, 0, 0], [0, 0, -1, 0], [3, 9, 0, 1]]));
}

#[test]
fn projective_point_is_divided_by_w() {
    let m = M::new([[1, 0, 0, 1], [0, 1, 0, 0], [0, 0, 1, 0], [0, 0, 0, 1]]);
    assert_eq!(m.transform_point3(P::new(1, 4, 6)), Ok(P::new(0, 2, 3)));
    assert_eq!(m.transform_point3(P::new(2, 6, -9)), Ok(P::new(0, 2, -3)));
    let b = Box3::new(P::new(1, 2, 4), P::new(3, 8, 12));
    assert_eq!(
        Transform::transform(&m, b),
        Some(Box3::new(P::new(0, 0, 1), P::new(0, 4, 6)))
    );
}

#[test]
fn erase_unit_keeps_matrices() {
    struct World;
    struct Screen;
    let t: Transform3<i64, World, Screen> = Transform3::translation(Vector3::new(1, 2, 3));
    let e = t.erase_unit();
    assert_eq!(e, M::translation(V::new(1, 2, 3)));
    assert_eq!(e.inverse(), M::translation(V::new(-1, -2, -3)));
}

#[test]
fn clone_gives_the_same_transform() {
    let t = M::translation(V::new(1, 2, 3));
    assert_eq!(t.clone(), t);
}

use typed_geometry::bounds::Box2;
use typed_geometry::point::Point2;
use typed_geometry::scale::Scale;
use typed_geometry::space::{Normal, UnknownUnit};
use typed_geometry::transform::{Transform, Transformation};
use typed_geometry::transform2::{matmul2, Transform2};
use typed_geometry::translation::Translation2;
use typed_geometry::vector::Vector2;

type M = Transform2<i64, UnknownUnit, UnknownUnit>;
type V = Vector2<i64, UnknownUnit>;
type N = Vector2<i64, Normal<UnknownUnit>>;
type P = Point2<i64, UnknownUnit>;

#[test]
fn try_new_refuses_degenerate_scale() {
    assert!(M::try_new([[0, 0], [0, 1], [0, 0]]).is_none());
    assert!(M::try_new([[1, 2], [2, 4], [7, 9]]).is_none());
}

#[test]
fn try_new_accepts_invertible_matrix_with_exact_inverse() {
    let t = M::try_new([[0, 1], [-1, 0], [2, 3]]).unwrap();
    let p = P::new(1, 0);
    let q = t.transform(p);
    assert_eq!(q, P::new(2, 4));
    assert_eq!(t.inverse().transform(q), p);
    assert_eq!(t * t.inverse(), M::identity());
    assert_eq!(t.inverse() * t, M::identity());
}

#[test]
fn try_new_with_larger_determinant_caches_rounded_inverse() {
    let t = M::try_new([[2, 0], [0, 1], [0, 0]]).unwrap();
    assert_eq!(t.determinant(), 2);
    assert!(t.is_invertible());
    assert_eq!(t.inverse().transform(P::new(6, 8)), P::new(0, 0));
    assert_eq!(t.inverse().transform(V::new(6, 8)), V::new(0, 0));
}

#[test]
fn new_builds_the_same_as_try_new() {
    let m = [[1, 1], [0, 1], [4, 5]];
    assert_eq!(M::new(m), M::try_new(m).unwrap());
    assert_eq!(M::new(m).inverse(), M::try_new(m).unwrap().inverse());
    assert_eq!(M::new(m).inverse(), M::new([[1, -1], [0, 1], [-4, -1]]));
}

#[test]
fn identity_2d() {
    assert!(M::identity().is_identity());
    assert!(<M as Transformation<i64, UnknownUnit, UnknownUnit>>::identity().is_identity());
    assert!(!M::translation(V::new(1, 0)).is_identity());
    assert_eq!(M::identity().determinant(), 1);
    assert_eq!(M::identity().transform(P::new(3, 4)), P::new(3, 4));
}

#[test]
fn translation_2d_moves_points_only() {
    let t = M::translation(V::new(3, -4));
    assert_eq!(t.transform(P::new(1, 1)), P::new(4, -3));
    assert_eq!(t.transform(V::new(1, 1)), V::new(1, 1));
    assert_eq!(t.transform(N::new(1, 1)), V::new(1, 1));
    assert_eq!(t.inverse(), M::translation(V::new(-3, 4)));
    assert_eq!(t * t, M::translation(V::new(6, -8)));
    assert_eq!(t * M::identity(), t);
    assert_eq!(M::identity() * t, t);
    assert_eq!(M::from_translation(Translation2::new(3, -4)), t);
}

#[test]
fn quarter_turn_from_sin_cos() {
    let r = M::rotation_from_sin_cos(1, 0);
    assert_eq!(r.transform(P::new(1, 0)), P::new(0, 1));
    assert_eq!(r.transform(P::new(0, 1)), P::new(-1, 0));
    assert_eq!(r.inverse().transform(P::new(0, 1)), P::new(1, 0));
    assert_eq!(r.determinant(), 1);
    assert_eq!(r * r * r * r, M::identity());
    assert_eq!(M::rotation_from_sin_cos(0, 1), M::identity());
}

#[test]
fn scale_2d_and_its_cached_inverse() {
    let s = M::scale(Scale::new(2), Scale::new(-1));
    assert_eq!(s.transform(P::new(3, 4)), P::new(6, -4));
    assert_eq!(s.determinant(), -2);
    assert_eq!(s.inverse().transform(P::new(6, -4)), P::new(0, 4));
    assert_eq!(M::from_scale(Scale::new(3)), M::scale(Scale::new(3), Scale::new(3)));
}

#[test]
fn composition_applies_left_factor_first() {
    let r = M::rotation_from_sin_cos(1, 0);
    let t = M::translation(V::new(10, 0));
    assert_eq!((r * t).transform(P::new(1, 0)), P::new(10, 1));
    assert_eq!((t * r).transform(P::new(1, 0)), P::new(0, 11));
    assert_eq!((&r * t).transform(P::new(1, 0)), P::new(10, 1));
    assert_eq!((r * &t).transform(P::new(1, 0)), P::new(10, 1));
    assert_eq!((&r * &t).transform(P::new(1, 0)), P::new(10, 1));
    assert_eq!((r * t).inverse(), t.inverse() * r.inverse());
}

#[test]
fn matmul2_multiplies_affine_matrices() {
    let a = [[1, 2], [3, 4], [5, 6]];
    let b = [[0, 1], [1, 0], [10, 20]];
    assert_eq!(matmul2(a, b), [[2, 1], [4, 3], [16, 25]]);
}

#[test]
fn normals_2d_go_through_inverse_transpose() {
    let shear = M::new([[1, 0], [1, 1], [0, 0]]);
    assert_eq!(shear.transform(N::new(1, 0)), V::new(1, -1));
    assert_eq!(shear.transform(N::new(0, 1)), V::new(0, 1));
}

#[test]
fn box_2d_under_quarter_turn_is_refitted_tightly() {
    let r = M::rotation_from_sin_cos(1, 0);
    let b = Box2::new(P::new(1, 2), P::new(4, 6));
    assert_eq!(r.transform(b), Box2::new(P::new(-6, 1), P::new(-2, 4)));
    let t = M::translation(V::new(1, 1));
    assert_eq!(t.transform(b), Box2::new(P::new(2, 3), P::new(5, 7)));
}

#[test]
fn erase_unit_2d_keeps_matrices() {
    #[derive(Debug)]
    struct World;
    #[derive(Debug)]
    struct Screen;
    let t: Transform2<i64, World, Screen> = Transform2::translation(Vector2::new(1, 2));
    assert_eq!(t.erase_unit(), M::translation(V::new(1, 2)));
    assert_eq!(t.erase_unit().inverse(), M::translation(V::new(-1, -2)));
    assert_eq!(t.clone(), t);
}

use typed_geometry::bounds::{Box2, Box3};
use typed_geometry::num::try_cast;
use typed_geometry::point::{Point2, Point3};
use typed_geometry::size::{Size2, Size3};
use typed_geometry::space::{Normal, UnknownUnit};
use typed_geometry::translation::{Translation2, Translation3};
use typed_geometry::vector::{Vector2, Vector3};

type U = UnknownUnit;

#[test]
fn scalars_cast_between_widths() {
    assert_eq!(try_cast::<i64, i32>(5), Some(5));
    assert_eq!(try_cast::<i64, i32>(-5), Some(-5));
    assert_eq!(try_cast::<i64, i32>(i32::MAX as i64), Some(i32::MAX));
    assert_eq!(try_cast::<i64, i32>(i32::MIN as i64), Some(i32::MIN));
    assert_eq!(try_cast::<i64, i32>(i32::MAX as i64 + 1), None);
    assert_eq!(try_cast::<i64, i32>(i32::MIN as i64 - 1), None);
    assert_eq!(try_cast::<i32, i64>(i32::MIN), Some(i32::MIN as i64));
    assert_eq!(try_cast::<i64, i64>(i64::MAX), Some(i64::MAX));
    assert_eq!(try_cast::<i32, i32>(7), Some(7));
}

#[test]
fn vectors_cast_componentwise() {
    let v: Vector2<i64, U> = Vector2::new(1, -2);
    assert_eq!(v.try_cast::<i32>(), Some(Vector2::new(1, -2)));
    assert_eq!(v.cast::<i32>(), Vector2::new(1i32, -2));
    assert_eq!(v.to_i32(), Vector2::new(1i32, -2));
    assert_eq!(v.to_i64(), v);
    let big: Vector2<i64, U> = Vector2::new(1, 1 << 40);
    assert_eq!(big.try_cast::<i32>(), None);
    let w: Vector3<i32, U> = Vector3::new(1, 2, 3);
    assert_eq!(w.try_cast::<i64>(), Some(Vector3::new(1i64, 2, 3)));
    assert_eq!(w.to_i64(), Vector3::new(1i64, 2, 3));
    let big3: Vector3<i64, U> = Vector3::new(1 << 40, 0, 0);
    assert_eq!(big3.try_cast::<i32>(), None);
    assert_eq!(Vector3::<i64, U>::new(0, 0, -(1 << 40)).try_cast::<i32>(), None);
}

#[test]
fn points_sizes_and_boxes_cast_componentwise() {
    let p: Point2<i64, U> = Point2::new(1, -2);
    assert_eq!(p.try_cast::<i32>(), Some(Point2::new(1, -2)));
    assert_eq!(p.to_i32(), Point2::new(1i32, -2));
    assert_eq!(Point2::<i64, U>::new(1 << 31, 0).try_cast::<i32>(), None);
    let q: Point3<i64, U> = Point3::new(1, -2, 3);
    assert_eq!(q.cast::<i32>(), Point3::new(1i32, -2, 3));
    assert_eq!(q.to_i64(), q);
    assert_eq!(Point3::<i64, U>::new(0, 1 << 31, 0).try_cast::<i32>(), None);
    let s: Size2<i32, U> = Size2::new(3, 4);
    assert_eq!(s.try_cast::<i64>(), Some(Size2::new(3i64, 4)));
    assert_eq!(s.to_i64(), Size2::new(3i64, 4));
    let t: Size3<i64, U> = Size3::new(3, 4, 5);
    assert_eq!(t.to_i32(), Size3::new(3i32, 4, 5));
    assert_eq!(Size3::<i64, U>::new(3, 4, i64::MAX).try_cast::<i32>(), None);
    let b: Box2<i64, U> = Box2::new(Point2::new(0, 1), Point2::new(2, 3));
    assert_eq!(b.try_cast::<i32>(), Some(Box2::new(Point2::new(0, 1), Point2::new(2, 3))));
    assert_eq!(b.cast::<i32>(), Box2::new(Point2::new(0i32, 1), Point2::new(2, 3)));
    let wide: Box2<i64, U> = Box2::new(Point2::new(0, 1), Point2::new(2, i64::MIN));
    assert_eq!(wide.try_cast::<i32>(), None);
    let c: Box3<i64, U> = Box3::new(Point3::new(0, 1, 2), Point3::new(3, 4, 5));
    assert_eq!(c.cast::<i32>(), Box3::new(Point3::new(0i32, 1, 2), Point3::new(3, 4, 5)));
    let wide3: Box3<i64, U> = Box3::new(Point3::new(i64::MAX, 1, 2), Point3::new(3, 4, 5));
    assert_eq!(wide3.try_cast::<i32>(), None);
}

#[test]
fn values_convert_from_and_into_arrays_and_tuples() {
    assert_eq!(Vector2::<i64, U>::from([1, 2]), Vector2::new(1, 2));
    assert_eq!(Vector2::<i64, U>::from((1, 2)), Vector2::new(1, 2));
    assert_eq!(<(i64, i64)>::from(Vector2::<i64, U>::new(1, 2)), (1, 2));
    assert_eq!(Vector3::<i64, U>::from([1, 2, 3]), Vector3::new(1, 2, 3));
    assert_eq!(Vector3::<i64, U>::from((1, 2, 3)), Vector3::new(1, 2, 3));
    assert_eq!(<(i64, i64, i64)>::from(Vector3::<i64, U>::new(1, 2, 3)), (1, 2, 3));
    assert_eq!(Point2::<i64, U>::from([1, 2]), Point2::new(1, 2));
    assert_eq!(Point2::<i64, U>::from((1, 2)), Point2::new(1, 2));
    assert_eq!(<(i64, i64)>::from(Point2::<i64, U>::new(1, 2)), (1, 2));
    assert_eq!(Point3::<i64, U>::from([1, 2, 3]), Point3::new(1, 2, 3));
    assert_eq!(Point3::<i64, U>::from((1, 2, 3)), Point3::new(1, 2, 3));
    assert_eq!(<(i64, i64, i64)>::from(Point3::<i64, U>::new(1, 2, 3)), (1, 2, 3));
    assert_eq!(Size2::<i64, U>::from([1, 2]), Size2::new(1, 2));
    assert_eq!(Size2::<i64, U>::from((1, 2)), Size2::new(1, 2));
    assert_eq!(<(i64, i64)>::from(Size2::<i64, U>::new(1, 2)), (1, 2));
    assert_eq!(Size3::<i64, U>::from([1, 2, 3]), Size3::new(1, 2, 3));
    assert_eq!(Size3::<i64, U>::from((1, 2, 3)), Size3::new(1, 2, 3));
    assert_eq!(<(i64, i64, i64)>::from(Size3::<i64, U>::new(1, 2, 3)), (1, 2, 3));
}

#[test]
fn vectors_sizes_and_translations_convert_into_each_other() {
    assert_eq!(Vector2::<i64, U>::from(Size2::new(1, 2)), Vector2::new(1, 2));
    assert_eq!(Size2::<i64, U>::from(Vector2::new(1, 2)), Size2::new(1, 2));
    assert_eq!(Vector3::<i64, U>::from(Size3::new(1, 2, 3)), Vector3::new(1, 2, 3));
    assert_eq!(Size3::<i64, U>::from(Vector3::new(1, 2, 3)), Size3::new(1, 2, 3));
    let t: Translation2<i64, U, U> = Translation2::new(1, 2);
    assert_eq!(Vector2::from(t), Vector2::new(1, 2));
    let t3: Translation3<i64, U, U> = Translation3::new(1, 2, 3);
    assert_eq!(Vector3::from(t3), Vector3::new(1, 2, 3));
}

#[test]
fn normal_faces_towards_a_direction() {
    let n: Vector3<i64, Normal<U>> = Vector3::new(0, 0, 1);
    assert_eq!(n.face_towards(Vector3::new(5, 5, 5)), n);
    assert_eq!(n.face_towards(Vector3::new(5, 5, -5)), Vector3::new(0, 0, -1));
    assert_eq!(n.face_towards(Vector3::new(5, 5, 0)), n);
}

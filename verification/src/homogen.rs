//! Homogeneous coordinates: what a projective map makes of a point, before
//! the division by `w` that brings it back into ordinary space.
use vstd::prelude::*;
use vstd::std_specs::cmp::PartialEqSpecImpl;
use vstd::std_specs::convert::{FromSpecImpl, TryFromSpecImpl};
use std::marker::PhantomData;
use crate::model::{Vec2, Vec3, Vec4};
use crate::num::{
    lemma_is_of_int, lemma_quotient_by_positive, lemma_quotient_fits, trunc_div, Scalar,
};
use crate::point::{Point2, Point3};
use crate::vector::{Vector2, Vector3};

verus! {

/// A point of space `U` in homogeneous coordinates. It stands for an ordinary
/// point only when `w` is positive.
#[derive(Debug, Hash)]
pub struct HomogeneousVector<T, U> {
    pub x: T,
    pub y: T,
    pub z: T,
    pub w: T,
    pub _unit: PhantomData<U>,
}

impl<T: Copy, U> Copy for HomogeneousVector<T, U> {
}

impl<T: Copy, U> Clone for HomogeneousVector<T, U> {
    fn clone(&self) -> (r: Self)
        ensures
            r == *self,
    {
        *self
    }
}

impl<T: Scalar, U> View for HomogeneousVector<T, U> {
    type V = Vec4;

    /// The integers the components stand for.
    open spec fn view(&self) -> Vec4 {
        Vec4 { x: self.x.val(), y: self.y.val(), z: self.z.val(), w: self.w.val() }
    }
}

impl<T: Scalar, U> PartialEqSpecImpl for HomogeneousVector<T, U> {
    open spec fn obeys_eq_spec() -> bool {
        true
    }

    open spec fn eq_spec(&self, other: &Self) -> bool {
        self@ == other@
    }
}

impl<T: Scalar, U> PartialEq for HomogeneousVector<T, U> {
    fn eq(&self, other: &Self) -> (r: bool) {
        self.x.eq(other.x) && self.y.eq(other.y) && self.z.eq(other.z) && self.w.eq(other.w)
    }
}

impl<T: Scalar, U> Eq for HomogeneousVector<T, U> {
}

impl<T, U> HomogeneousVector<T, U> {
    pub fn new(x: T, y: T, z: T, w: T) -> (r: Self)
        ensures
            r.x == x,
            r.y == y,
            r.z == z,
            r.w == w,
    {
        Self { x, y, z, w, _unit: PhantomData }
    }
}

/// The ordinary 2D point a homogeneous vector stands for: `x` and `y` each
/// divided by `w`, rounding toward zero.
pub open spec fn to_point2_spec(v: Vec4) -> Vec2 {
    Vec2 { x: trunc_div(v.x, v.w), y: trunc_div(v.y, v.w) }
}

/// The ordinary 3D point a homogeneous vector stands for: `x`, `y` and `z`
/// each divided by `w`, rounding toward zero.
pub open spec fn to_point3_spec(v: Vec4) -> Vec3 {
    Vec3 { x: trunc_div(v.x, v.w), y: trunc_div(v.y, v.w), z: trunc_div(v.z, v.w) }
}

impl<T: Scalar, U> TryFromSpecImpl<HomogeneousVector<T, U>> for Point2<T, U> {
    open spec fn obeys_try_from_spec() -> bool {
        true
    }

    open spec fn try_from_spec(v: HomogeneousVector<T, U>) -> Result<Self, ()> {
        if v@.w > 0 {
            Ok(
                Point2 {
                    x: T::of_int(to_point2_spec(v@).x),
                    y: T::of_int(to_point2_spec(v@).y),
                    _unit: PhantomData,
                },
            )
        } else {
            Err(())
        }
    }
}

/// A homogeneous vector with positive `w` becomes the point it stands for; any
/// other is refused.
impl<T: Scalar, U> TryFrom<HomogeneousVector<T, U>> for Point2<T, U> {
    type Error = ();

    fn try_from(v: HomogeneousVector<T, U>) -> (r: Result<Self, ()>)
        ensures
            r is Ok <==> v@.w > 0,
            r matches Ok(p) ==> p@ == to_point2_spec(v@),
            r matches Ok(p) ==> v@.w == 1 ==> p@ == (Vec2 { x: v@.x, y: v@.y }),
    {
        if v.w.gt(T::zero()) {
            proof {
                lemma_quotient_fits(v.x, v.w);
                lemma_quotient_fits(v.y, v.w);
                lemma_quotient_by_positive(v@.x, v@.w);
                lemma_quotient_by_positive(v@.y, v@.w);
            }
            let p = Point2::new(v.x.div(v.w), v.y.div(v.w));
            proof {
                lemma_is_of_int(p.x);
                lemma_is_of_int(p.y);
            }
            Ok(p)
        } else {
            Err(())
        }
    }
}

impl<T: Scalar, U> TryFromSpecImpl<HomogeneousVector<T, U>> for Point3<T, U> {
    open spec fn obeys_try_from_spec() -> bool {
        true
    }

    open spec fn try_from_spec(v: HomogeneousVector<T, U>) -> Result<Self, ()> {
        if v@.w > 0 {
            Ok(
                Point3 {
                    x: T::of_int(to_point3_spec(v@).x),
                    y: T::of_int(to_point3_spec(v@).y),
                    z: T::of_int(to_point3_spec(v@).z),
                    _unit: PhantomData,
                },
            )
        } else {
            Err(())
        }
    }
}

/// A homogeneous vector with positive `w` becomes the point it stands for; any
/// other is refused.
impl<T: Scalar, U> TryFrom<HomogeneousVector<T, U>> for Point3<T, U> {
    type Error = ();

    fn try_from(v: HomogeneousVector<T, U>) -> (r: Result<Self, ()>)
        ensures
            r is Ok <==> v@.w > 0,
            r matches Ok(p) ==> p@ == to_point3_spec(v@),
            r matches Ok(p) ==> v@.w == 1 ==> p@ == (Vec3 { x: v@.x, y: v@.y, z: v@.z }),
    {
        if v.w.gt(T::zero()) {
            proof {
                lemma_quotient_fits(v.x, v.w);
                lemma_quotient_fits(v.y, v.w);
                lemma_quotient_fits(v.z, v.w);
                lemma_quotient_by_positive(v@.x, v@.w);
                lemma_quotient_by_positive(v@.y, v@.w);
                lemma_quotient_by_positive(v@.z, v@.w);
            }
            let p = Point3::new(v.x.div(v.w), v.y.div(v.w), v.z.div(v.w));
            proof {
                lemma_is_of_int(p.x);
                lemma_is_of_int(p.y);
                lemma_is_of_int(p.z);
            }
            Ok(p)
        } else {
            Err(())
        }
    }
}

impl<T: Scalar, U> FromSpecImpl<Vector2<T, U>> for HomogeneousVector<T, U> {
    open spec fn obeys_from_spec() -> bool {
        true
    }

    open spec fn from_spec(v: Vector2<T, U>) -> Self {
        HomogeneousVector { x: v.x, y: v.y, z: T::of_int(0), w: T::of_int(0), _unit: PhantomData }
    }
}

/// A direction in the plane has `z` and `w` zero.
impl<T: Scalar, U> From<Vector2<T, U>> for HomogeneousVector<T, U> {
    fn from(v: Vector2<T, U>) -> (r: Self)
        ensures
            r@ == (Vec4 { x: v@.x, y: v@.y, z: 0, w: 0 }),
    {
        let r = Self::new(v.x, v.y, T::zero(), T::zero());
        proof {
            lemma_is_of_int(r.z);
            lemma_is_of_int(r.w);
        }
        r
    }
}

impl<T: Scalar, U> FromSpecImpl<Vector3<T, U>> for HomogeneousVector<T, U> {
    open spec fn obeys_from_spec() -> bool {
        true
    }

    open spec fn from_spec(v: Vector3<T, U>) -> Self {
        HomogeneousVector { x: v.x, y: v.y, z: v.z, w: T::of_int(0), _unit: PhantomData }
    }
}

/// A direction has `w` zero.
impl<T: Scalar, U> From<Vector3<T, U>> for HomogeneousVector<T, U> {
    fn from(v: Vector3<T, U>) -> (r: Self)
        ensures
            r@ == (Vec4 { x: v@.x, y: v@.y, z: v@.z, w: 0 }),
    {
        let r = Self::new(v.x, v.y, v.z, T::zero());
        proof {
            lemma_is_of_int(r.w);
        }
        r
    }
}

impl<T: Scalar, U> FromSpecImpl<Point2<T, U>> for HomogeneousVector<T, U> {
    open spec fn obeys_from_spec() -> bool {
        true
    }

    open spec fn from_spec(p: Point2<T, U>) -> Self {
        HomogeneousVector { x: p.x, y: p.y, z: T::of_int(0), w: T::of_int(1), _unit: PhantomData }
    }
}

/// A point of the plane has `z` zero and `w` one.
impl<T: Scalar, U> From<Point2<T, U>> for HomogeneousVector<T, U> {
    fn from(p: Point2<T, U>) -> (r: Self)
        ensures
            r@ == (Vec4 { x: p@.x, y: p@.y, z: 0, w: 1 }),
    {
        let r = Self::new(p.x, p.y, T::zero(), T::one());
        proof {
            lemma_is_of_int(r.z);
            lemma_is_of_int(r.w);
        }
        r
    }
}

impl<T: Scalar, U> FromSpecImpl<Point3<T, U>> for HomogeneousVector<T, U> {
    open spec fn obeys_from_spec() -> bool {
        true
    }

    open spec fn from_spec(p: Point3<T, U>) -> Self {
        HomogeneousVector { x: p.x, y: p.y, z: p.z, w: T::of_int(1), _unit: PhantomData }
    }
}

/// A point has `w` one.
impl<T: Scalar, U> From<Point3<T, U>> for HomogeneousVector<T, U> {
    fn from(p: Point3<T, U>) -> (r: Self)
        ensures
            r@ == (Vec4 { x: p@.x, y: p@.y, z: p@.z, w: 1 }),
    {
        let r = Self::new(p.x, p.y, p.z, T::one());
        proof {
            lemma_is_of_int(r.w);
        }
        r
    }
}

} // verus!

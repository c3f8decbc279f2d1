//! Uniform scale factors between two spaces.
use vstd::prelude::*;
use vstd::std_specs::cmp::{PartialEqSpecImpl, PartialOrdSpecImpl};
use vstd::std_specs::ops::{AddSpecImpl, DivSpecImpl, MulSpecImpl, SubSpecImpl};
use std::cmp::Ordering;
use std::marker::PhantomData;
use std::ops::{Add, Div, Mul, Sub};
use crate::bounds::{Box2, Box3};
use crate::num::{lemma_is_of_int, trunc_div, One, Scalar};
use crate::point::{Point2, Point3};
use crate::size::{Size2, Size3};
use crate::space::Normal;
use crate::transform::{Transform, Transformation};
use crate::units::Length;
use crate::vector::{Vector2, Vector3};

verus! {
/// A factor that takes lengths in `Src` space to lengths in `Dst` space.
#[derive(Debug, Hash)]
pub struct Scale<T, Src, Dst>(pub T, pub PhantomData<(Src, Dst)>);

impl<T: Copy, Src, Dst> Copy for Scale<T, Src, Dst> {
}

impl<T: Copy, Src, Dst> Clone for Scale<T, Src, Dst> {
    fn clone(&self) -> (r: Self)
        ensures
            r == *self,
    {
        *self
    }
}

impl<T: Scalar, Src, Dst> View for Scale<T, Src, Dst> {
    type V = int;

    /// The integer the factor stands for.
    open spec fn view(&self) -> int {
        self.0.val()
    }
}

impl<T: Scalar, Src, Dst> PartialEqSpecImpl for Scale<T, Src, Dst> {
    open spec fn obeys_eq_spec() -> bool {
        true
    }

    open spec fn eq_spec(&self, other: &Self) -> bool {
        self@ == other@
    }
}

impl<T: Scalar, Src, Dst> PartialEq for Scale<T, Src, Dst> {
    fn eq(&self, other: &Self) -> (r: bool) {
        self.0.eq(other.0)
    }
}

impl<T: Scalar, Src, Dst> Eq for Scale<T, Src, Dst> {
}

impl<T: Scalar, Src, Dst> PartialOrdSpecImpl for Scale<T, Src, Dst> {
    open spec fn obeys_partial_cmp_spec() -> bool {
        true
    }

    open spec fn partial_cmp_spec(&self, other: &Self) -> Option<Ordering> {
        if self@ < other@ {
            Some(Ordering::Less)
        } else if self@ == other@ {
            Some(Ordering::Equal)
        } else {
            Some(Ordering::Greater)
        }
    }
}

/// Ordered as the integers they stand for.
impl<T: Scalar, Src, Dst> PartialOrd for Scale<T, Src, Dst> {
    fn partial_cmp(&self, other: &Self) -> (r: Option<Ordering>) {
        if self.0.lt(other.0) {
            Some(Ordering::Less)
        } else if self.0.eq(other.0) {
            Some(Ordering::Equal)
        } else {
            Some(Ordering::Greater)
        }
    }
}

impl<T, Src, Dst> Scale<T, Src, Dst> {
    pub fn new(factor: T) -> (r: Self)
        ensures
            r.0 == factor,
    {
        Scale(factor, PhantomData)
    }

    /// The bare factor.
    pub fn get(self) -> (r: T)
        ensures
            r == self.0,
    {
        self.0
    }
}

impl<T: Scalar, Src, Dst> One for Scale<T, Src, Dst> {
    open spec fn is_one(&self) -> bool {
        self@ == 1
    }

    fn one() -> (r: Self) {
        Self::new(T::one())
    }
}

impl<T: Scalar, Src, Dst> Transformation<T, Src, Dst> for Scale<T, Src, Dst> {
    type Inverse = Scale<T, Dst, Src>;

    open spec fn is_identity_spec(&self) -> bool {
        self@ == 1
    }

    open spec fn inverse_req(&self) -> bool {
        self@ != 0 && T::fits(trunc_div(1, self@))
    }

    open spec fn inverse_ensures(&self, r: Scale<T, Dst, Src>) -> bool {
        r@ == trunc_div(1, self@)
    }

    fn identity() -> (r: Self) {
        One::one()
    }

    fn is_identity(&self) -> (b: bool) {
        self.0.eq(T::one())
    }

    /// The reciprocal factor, rounded toward zero.
    fn inverse(&self) -> (r: Scale<T, Dst, Src>) {
        Scale::new(T::one().div(self.0))
    }
}

impl<T: Scalar, U1, U2> Transform<Length<T, U1>> for Scale<T, U1, U2> {
    type Output = Length<T, U2>;

    open spec fn transform_req(&self, length: Length<T, U1>) -> bool {
        T::fits(length@ * self@)
    }

    open spec fn transform_ensures(&self, length: Length<T, U1>, r: Length<T, U2>) -> bool {
        r@ == length@ * self@
    }

    fn transform(&self, length: Length<T, U1>) -> (r: Length<T, U2>) {
        Length::new(length.0.mul(self.0))
    }
}

impl<T: Scalar, U1, U2> Transform<Point2<T, U1>> for Scale<T, U1, U2> {
    type Output = Point2<T, U2>;

    open spec fn transform_req(&self, v: Point2<T, U1>) -> bool {
        v@.scale(self@).fits::<T>()
    }

    open spec fn transform_ensures(&self, v: Point2<T, U1>, r: Point2<T, U2>) -> bool {
        r@ == v@.scale(self@)
    }

    /// Each coordinate is multiplied by the factor.
    fn transform(&self, v: Point2<T, U1>) -> (r: Point2<T, U2>) {
        Point2::new(v.x.mul(self.0), v.y.mul(self.0))
    }
}

impl<T: Scalar, U1, U2> Transform<Point3<T, U1>> for Scale<T, U1, U2> {
    type Output = Point3<T, U2>;

    open spec fn transform_req(&self, v: Point3<T, U1>) -> bool {
        v@.scale(self@).fits::<T>()
    }

    open spec fn transform_ensures(&self, v: Point3<T, U1>, r: Point3<T, U2>) -> bool {
        r@ == v@.scale(self@)
    }

    /// Each coordinate is multiplied by the factor.
    fn transform(&self, v: Point3<T, U1>) -> (r: Point3<T, U2>) {
        Point3::new(v.x.mul(self.0), v.y.mul(self.0), v.z.mul(self.0))
    }
}

impl<T: Scalar, U1, U2> Transform<Vector2<T, U1>> for Scale<T, U1, U2> {
    type Output = Vector2<T, U2>;

    open spec fn transform_req(&self, v: Vector2<T, U1>) -> bool {
        v@.scale(self@).fits::<T>()
    }

    open spec fn transform_ensures(&self, v: Vector2<T, U1>, r: Vector2<T, U2>) -> bool {
        r@ == v@.scale(self@)
    }

    /// Each component is multiplied by the factor.
    fn transform(&self, v: Vector2<T, U1>) -> (r: Vector2<T, U2>) {
        Vector2::new(v.x.mul(self.0), v.y.mul(self.0))
    }
}

impl<T: Scalar, U1, U2> Transform<Vector3<T, U1>> for Scale<T, U1, U2> {
    type Output = Vector3<T, U2>;

    open spec fn transform_req(&self, v: Vector3<T, U1>) -> bool {
        v@.scale(self@).fits::<T>()
    }

    open spec fn transform_ensures(&self, v: Vector3<T, U1>, r: Vector3<T, U2>) -> bool {
        r@ == v@.scale(self@)
    }

    /// Each component is multiplied by the factor.
    fn transform(&self, v: Vector3<T, U1>) -> (r: Vector3<T, U2>) {
        Vector3::new(v.x.mul(self.0), v.y.mul(self.0), v.z.mul(self.0))
    }
}

impl<T: Scalar, U1, U2> Transform<Vector2<T, Normal<U1>>> for Scale<T, U1, U2> {
    type Output = Vector2<T, Normal<U2>>;

    open spec fn transform_req(&self, v: Vector2<T, Normal<U1>>) -> bool {
        self@ != 0 && v@.div(self@).fits::<T>()
    }

    open spec fn transform_ensures(
        &self,
        v: Vector2<T, Normal<U1>>,
        r: Vector2<T, Normal<U2>>,
    ) -> bool {
        r@ == v@.div(self@)
    }

    /// A normal scales inversely: each component is divided by the factor,
    /// rounding toward zero.
    fn transform(&self, v: Vector2<T, Normal<U1>>) -> (r: Vector2<T, Normal<U2>>) {
        Vector2::new(v.x.div(self.0), v.y.div(self.0))
    }
}

impl<T: Scalar, U1, U2> Transform<Vector3<T, Normal<U1>>> for Scale<T, U1, U2> {
    type Output = Vector3<T, Normal<U2>>;

    open spec fn transform_req(&self, v: Vector3<T, Normal<U1>>) -> bool {
        self@ != 0 && v@.div(self@).fits::<T>()
    }

    open spec fn transform_ensures(
        &self,
        v: Vector3<T, Normal<U1>>,
        r: Vector3<T, Normal<U2>>,
    ) -> bool {
        r@ == v@.div(self@)
    }

    /// A normal scales inversely: each component is divided by the factor,
    /// rounding toward zero.
    fn transform(&self, v: Vector3<T, Normal<U1>>) -> (r: Vector3<T, Normal<U2>>) {
        Vector3::new(v.x.div(self.0), v.y.div(self.0), v.z.div(self.0))
    }
}

impl<T: Scalar, U1, U2> Transform<Box2<T, U1>> for Scale<T, U1, U2> {
    type Output = Box2<T, U2>;

    open spec fn transform_req(&self, b: Box2<T, U1>) -> bool {
        b.min@.scale(self@).fits::<T>() && b.max@.scale(self@).fits::<T>()
    }

    open spec fn transform_ensures(&self, b: Box2<T, U1>, r: Box2<T, U2>) -> bool {
        r.min@ == b.min@.scale(self@) && r.max@ == b.max@.scale(self@)
    }

    /// Each corner is scaled as it stands. A negative factor therefore makes
    /// the low corner the higher one, and the box an empty one.
    fn transform(&self, b: Box2<T, U1>) -> (r: Box2<T, U2>) {
        Box2::new(self.transform(b.min), self.transform(b.max))
    }
}

impl<T: Scalar, U1, U2> Transform<Box3<T, U1>> for Scale<T, U1, U2> {
    type Output = Box3<T, U2>;

    open spec fn transform_req(&self, b: Box3<T, U1>) -> bool {
        b.min@.scale(self@).fits::<T>() && b.max@.scale(self@).fits::<T>()
    }

    open spec fn transform_ensures(&self, b: Box3<T, U1>, r: Box3<T, U2>) -> bool {
        r.min@ == b.min@.scale(self@) && r.max@ == b.max@.scale(self@)
    }

    /// Each corner is scaled as it stands. A negative factor therefore makes
    /// the low corner the higher one, and the box an empty one.
    fn transform(&self, b: Box3<T, U1>) -> (r: Box3<T, U2>) {
        Box3::new(self.transform(b.min), self.transform(b.max))
    }
}

impl<T: Scalar, U1, U2> Transform<Size2<T, U1>> for Scale<T, U1, U2> {
    type Output = Size2<T, U2>;

    open spec fn transform_req(&self, v: Size2<T, U1>) -> bool {
        v@.scale(self@).fits::<T>()
    }

    open spec fn transform_ensures(&self, v: Size2<T, U1>, r: Size2<T, U2>) -> bool {
        r@ == v@.scale(self@)
    }

    /// Each extent is multiplied by the factor.
    fn transform(&self, v: Size2<T, U1>) -> (r: Size2<T, U2>) {
        Size2::new(v.x.mul(self.0), v.y.mul(self.0))
    }
}

impl<T: Scalar, U1, U2> Transform<Size3<T, U1>> for Scale<T, U1, U2> {
    type Output = Size3<T, U2>;

    open spec fn transform_req(&self, v: Size3<T, U1>) -> bool {
        v@.scale(self@).fits::<T>()
    }

    open spec fn transform_ensures(&self, v: Size3<T, U1>, r: Size3<T, U2>) -> bool {
        r@ == v@.scale(self@)
    }

    /// Each extent is multiplied by the factor.
    fn transform(&self, v: Size3<T, U1>) -> (r: Size3<T, U2>) {
        Size3::new(v.x.mul(self.0), v.y.mul(self.0), v.z.mul(self.0))
    }
}

impl<T: Scalar, Src, Dst> AddSpecImpl<Scale<T, Src, Dst>> for Scale<T, Src, Dst> {
    open spec fn obeys_add_spec() -> bool {
        true
    }

    open spec fn add_req(self, rhs: Scale<T, Src, Dst>) -> bool {
        T::fits(self@ + rhs@)
    }

    open spec fn add_spec(self, rhs: Scale<T, Src, Dst>) -> Scale<T, Src, Dst> {
        Scale(T::of_int(self@ + rhs@), PhantomData)
    }
}

/// The sum of two factors between the same spaces.
impl<T: Scalar, Src, Dst> Add<Scale<T, Src, Dst>> for Scale<T, Src, Dst> {
    type Output = Scale<T, Src, Dst>;

    fn add(self, rhs: Scale<T, Src, Dst>) -> (r: Scale<T, Src, Dst>)
        ensures
            r@ == self@ + rhs@,
    {
        let r = Scale::new(self.0.add(rhs.0));
        proof {
            lemma_is_of_int(r.0);
        }
        r
    }
}

impl<T: Scalar, Src, Dst> SubSpecImpl<Scale<T, Src, Dst>> for Scale<T, Src, Dst> {
    open spec fn obeys_sub_spec() -> bool {
        true
    }

    open spec fn sub_req(self, rhs: Scale<T, Src, Dst>) -> bool {
        T::fits(self@ - rhs@)
    }

    open spec fn sub_spec(self, rhs: Scale<T, Src, Dst>) -> Scale<T, Src, Dst> {
        Scale(T::of_int(self@ - rhs@), PhantomData)
    }
}

/// The difference of two factors between the same spaces.
impl<T: Scalar, Src, Dst> Sub<Scale<T, Src, Dst>> for Scale<T, Src, Dst> {
    type Output = Scale<T, Src, Dst>;

    fn sub(self, rhs: Scale<T, Src, Dst>) -> (r: Scale<T, Src, Dst>)
        ensures
            r@ == self@ - rhs@,
    {
        let r = Scale::new(self.0.sub(rhs.0));
        proof {
            lemma_is_of_int(r.0);
        }
        r
    }
}

impl<T: Scalar, A, B, C> MulSpecImpl<Scale<T, B, C>> for Scale<T, A, B> {
    open spec fn obeys_mul_spec() -> bool {
        true
    }

    open spec fn mul_req(self, rhs: Scale<T, B, C>) -> bool {
        T::fits(self@ * rhs@)
    }

    open spec fn mul_spec(self, rhs: Scale<T, B, C>) -> Scale<T, A, C> {
        Scale(T::of_int(self@ * rhs@), PhantomData)
    }
}

/// Scaling from `A` to `B` and then from `B` to `C` multiplies the factors.
impl<T: Scalar, A, B, C> Mul<Scale<T, B, C>> for Scale<T, A, B> {
    type Output = Scale<T, A, C>;

    fn mul(self, rhs: Scale<T, B, C>) -> (r: Scale<T, A, C>)
        ensures
            r@ == self@ * rhs@,
    {
        let r = Scale::new(self.0.mul(rhs.0));
        proof {
            lemma_is_of_int(r.0);
        }
        r
    }
}

impl<T: Scalar, U1, U2> MulSpecImpl<Scale<T, U1, U2>> for Vector2<T, U1> {
    open spec fn obeys_mul_spec() -> bool {
        true
    }

    open spec fn mul_req(self, rhs: Scale<T, U1, U2>) -> bool {
        self@.scale(rhs@).fits::<T>()
    }

    open spec fn mul_spec(self, rhs: Scale<T, U1, U2>) -> Vector2<T, U2> {
        Vector2 {
            x: T::of_int(self.x.val() * rhs@),
            y: T::of_int(self.y.val() * rhs@),
            _unit: PhantomData,
        }
    }
}

impl<T: Scalar, U1, U2> Mul<Scale<T, U1, U2>> for Vector2<T, U1> {
    type Output = Vector2<T, U2>;

    fn mul(self, rhs: Scale<T, U1, U2>) -> (r: Vector2<T, U2>)
        ensures
            r@ == self@.scale(rhs@),
    {
        let r = Vector2::new(self.x.mul(rhs.0), self.y.mul(rhs.0));
        proof {
            lemma_is_of_int(r.x);
            lemma_is_of_int(r.y);
        }
        r
    }
}

impl<T: Scalar, U1, U2> DivSpecImpl<Scale<T, U1, U2>> for Vector2<T, U2> {
    open spec fn obeys_div_spec() -> bool {
        true
    }

    open spec fn div_req(self, rhs: Scale<T, U1, U2>) -> bool {
        rhs@ != 0 && self@.div(rhs@).fits::<T>()
    }

    open spec fn div_spec(self, rhs: Scale<T, U1, U2>) -> Vector2<T, U1> {
        Vector2 {
            x: T::of_int(trunc_div(self.x.val(), rhs@)),
            y: T::of_int(trunc_div(self.y.val(), rhs@)),
            _unit: PhantomData,
        }
    }
}

impl<T: Scalar, U1, U2> Div<Scale<T, U1, U2>> for Vector2<T, U2> {
    type Output = Vector2<T, U1>;

    fn div(self, rhs: Scale<T, U1, U2>) -> (r: Vector2<T, U1>)
        ensures
            r@ == self@.div(rhs@),
    {
        let r = Vector2::new(self.x.div(rhs.0), self.y.div(rhs.0));
        proof {
            lemma_is_of_int(r.x);
            lemma_is_of_int(r.y);
        }
        r
    }
}

impl<T: Scalar, U1, U2> MulSpecImpl<Scale<T, U1, U2>> for Vector3<T, U1> {
    open spec fn obeys_mul_spec() -> bool {
        true
    }

    open spec fn mul_req(self, rhs: Scale<T, U1, U2>) -> bool {
        self@.scale(rhs@).fits::<T>()
    }

    open spec fn mul_spec(self, rhs: Scale<T, U1, U2>) -> Vector3<T, U2> {
        Vector3 {
            x: T::of_int(self.x.val() * rhs@),
            y: T::of_int(self.y.val() * rhs@),
            z: T::of_int(self.z.val() * rhs@),
            _unit: PhantomData,
        }
    }
}

impl<T: Scalar, U1, U2> Mul<Scale<T, U1, U2>> for Vector3<T, U1> {
    type Output = Vector3<T, U2>;

    fn mul(self, rhs: Scale<T, U1, U2>) -> (r: Vector3<T, U2>)
        ensures
            r@ == self@.scale(rhs@),
    {
        let r = Vector3::new(self.x.mul(rhs.0), self.y.mul(rhs.0), self.z.mul(rhs.0));
        proof {
            lemma_is_of_int(r.x);
            lemma_is_of_int(r.y);
            lemma_is_of_int(r.z);
        }
        r
    }
}

impl<T: Scalar, U1, U2> DivSpecImpl<Scale<T, U1, U2>> for Vector3<T, U2> {
    open spec fn obeys_div_spec() -> bool {
        true
    }

    open spec fn div_req(self, rhs: Scale<T, U1, U2>) -> bool {
        rhs@ != 0 && self@.div(rhs@).fits::<T>()
    }

    open spec fn div_spec(self, rhs: Scale<T, U1, U2>) -> Vector3<T, U1> {
        Vector3 {
            x: T::of_int(trunc_div(self.x.val(), rhs@)),
            y: T::of_int(trunc_div(self.y.val(), rhs@)),
            z: T::of_int(trunc_div(self.z.val(), rhs@)),
            _unit: PhantomData,
        }
    }
}

impl<T: Scalar, U1, U2> Div<Scale<T, U1, U2>> for Vector3<T, U2> {
    type Output = Vector3<T, U1>;

    fn div(self, rhs: Scale<T, U1, U2>) -> (r: Vector3<T, U1>)
        ensures
            r@ == self@.div(rhs@),
    {
        let r = Vector3::new(self.x.div(rhs.0), self.y.div(rhs.0), self.z.div(rhs.0));
        proof {
            lemma_is_of_int(r.x);
            lemma_is_of_int(r.y);
            lemma_is_of_int(r.z);
        }
        r
    }
}

impl<T: Scalar, U1, U2> MulSpecImpl<Scale<T, U1, U2>> for Point2<T, U1> {
    open spec fn obeys_mul_spec() -> bool {
        true
    }

    open spec fn mul_req(self, rhs: Scale<T, U1, U2>) -> bool {
        self@.scale(rhs@).fits::<T>()
    }

    open spec fn mul_spec(self, rhs: Scale<T, U1, U2>) -> Point2<T, U2> {
        Point2 {
            x: T::of_int(self.x.val() * rhs@),
            y: T::of_int(self.y.val() * rhs@),
            _unit: PhantomData,
        }
    }
}

impl<T: Scalar, U1, U2> Mul<Scale<T, U1, U2>> for Point2<T, U1> {
    type Output = Point2<T, U2>;

    fn mul(self, rhs: Scale<T, U1, U2>) -> (r: Point2<T, U2>)
        ensures
            r@ == self@.scale(rhs@),
    {
        let r = Point2::new(self.x.mul(rhs.0), self.y.mul(rhs.0));
        proof {
            lemma_is_of_int(r.x);
            lemma_is_of_int(r.y);
        }
        r
    }
}

impl<T: Scalar, U1, U2> DivSpecImpl<Scale<T, U1, U2>> for Point2<T, U2> {
    open spec fn obeys_div_spec() -> bool {
        true
    }

    open spec fn div_req(self, rhs: Scale<T, U1, U2>) -> bool {
        rhs@ != 0 && self@.div(rhs@).fits::<T>()
    }

    open spec fn div_spec(self, rhs: Scale<T, U1, U2>) -> Point2<T, U1> {
        Point2 {
            x: T::of_int(trunc_div(self.x.val(), rhs@)),
            y: T::of_int(trunc_div(self.y.val(), rhs@)),
            _unit: PhantomData,
        }
    }
}

impl<T: Scalar, U1, U2> Div<Scale<T, U1, U2>> for Point2<T, U2> {
    type Output = Point2<T, U1>;

    fn div(self, rhs: Scale<T, U1, U2>) -> (r: Point2<T, U1>)
        ensures
            r@ == self@.div(rhs@),
    {
        let r = Point2::new(self.x.div(rhs.0), self.y.div(rhs.0));
        proof {
            lemma_is_of_int(r.x);
            lemma_is_of_int(r.y);
        }
        r
    }
}

impl<T: Scalar, U1, U2> MulSpecImpl<Scale<T, U1, U2>> for Point3<T, U1> {
    open spec fn obeys_mul_spec() -> bool {
        true
    }

    open spec fn mul_req(self, rhs: Scale<T, U1, U2>) -> bool {
        self@.scale(rhs@).fits::<T>()
    }

    open spec fn mul_spec(self, rhs: Scale<T, U1, U2>) -> Point3<T, U2> {
        Point3 {
            x: T::of_int(self.x.val() * rhs@),
            y: T::of_int(self.y.val() * rhs@),
            z: T::of_int(self.z.val() * rhs@),
            _unit: PhantomData,
        }
    }
}

impl<T: Scalar, U1, U2> Mul<Scale<T, U1, U2>> for Point3<T, U1> {
    type Output = Point3<T, U2>;

    fn mul(self, rhs: Scale<T, U1, U2>) -> (r: Point3<T, U2>)
        ensures
            r@ == self@.scale(rhs@),
    {
        let r = Point3::new(self.x.mul(rhs.0), self.y.mul(rhs.0), self.z.mul(rhs.0));
        proof {
            lemma_is_of_int(r.x);
            lemma_is_of_int(r.y);
            lemma_is_of_int(r.z);
        }
        r
    }
}

impl<T: Scalar, U1, U2> DivSpecImpl<Scale<T, U1, U2>> for Point3<T, U2> {
    open spec fn obeys_div_spec() -> bool {
        true
    }

    open spec fn div_req(self, rhs: Scale<T, U1, U2>) -> bool {
        rhs@ != 0 && self@.div(rhs@).fits::<T>()
    }

    open spec fn div_spec(self, rhs: Scale<T, U1, U2>) -> Point3<T, U1> {
        Point3 {
            x: T::of_int(trunc_div(self.x.val(), rhs@)),
            y: T::of_int(trunc_div(self.y.val(), rhs@)),
            z: T::of_int(trunc_div(self.z.val(), rhs@)),
            _unit: PhantomData,
        }
    }
}

impl<T: Scalar, U1, U2> Div<Scale<T, U1, U2>> for Point3<T, U2> {
    type Output = Point3<T, U1>;

    fn div(self, rhs: Scale<T, U1, U2>) -> (r: Point3<T, U1>)
        ensures
            r@ == self@.div(rhs@),
    {
        let r = Point3::new(self.x.div(rhs.0), self.y.div(rhs.0), self.z.div(rhs.0));
        proof {
            lemma_is_of_int(r.x);
            lemma_is_of_int(r.y);
            lemma_is_of_int(r.z);
        }
        r
    }
}

impl<T: Scalar, U1, U2> MulSpecImpl<Scale<T, U1, U2>> for Size2<T, U1> {
    open spec fn obeys_mul_spec() -> bool {
        true
    }

    open spec fn mul_req(self, rhs: Scale<T, U1, U2>) -> bool {
        self@.scale(rhs@).fits::<T>()
    }

    open spec fn mul_spec(self, rhs: Scale<T, U1, U2>) -> Size2<T, U2> {
        Size2 {
            x: T::of_int(self.x.val() * rhs@),
            y: T::of_int(self.y.val() * rhs@),
            _unit: PhantomData,
        }
    }
}

impl<T: Scalar, U1, U2> Mul<Scale<T, U1, U2>> for Size2<T, U1> {
    type Output = Size2<T, U2>;

    fn mul(self, rhs: Scale<T, U1, U2>) -> (r: Size2<T, U2>)
        ensures
            r@ == self@.scale(rhs@),
    {
        let r = Size2::new(self.x.mul(rhs.0), self.y.mul(rhs.0));
        proof {
            lemma_is_of_int(r.x);
            lemma_is_of_int(r.y);
        }
        r
    }
}

impl<T: Scalar, U1, U2> DivSpecImpl<Scale<T, U1, U2>> for Size2<T, U2> {
    open spec fn obeys_div_spec() -> bool {
        true
    }

    open spec fn div_req(self, rhs: Scale<T, U1, U2>) -> bool {
        rhs@ != 0 && self@.div(rhs@).fits::<T>()
    }

    open spec fn div_spec(self, rhs: Scale<T, U1, U2>) -> Size2<T, U1> {
        Size2 {
            x: T::of_int(trunc_div(self.x.val(), rhs@)),
            y: T::of_int(trunc_div(self.y.val(), rhs@)),
            _unit: PhantomData,
        }
    }
}

impl<T: Scalar, U1, U2> Div<Scale<T, U1, U2>> for Size2<T, U2> {
    type Output = Size2<T, U1>;

    fn div(self, rhs: Scale<T, U1, U2>) -> (r: Size2<T, U1>)
        ensures
            r@ == self@.div(rhs@),
    {
        let r = Size2::new(self.x.div(rhs.0), self.y.div(rhs.0));
        proof {
            lemma_is_of_int(r.x);
            lemma_is_of_int(r.y);
        }
        r
    }
}

impl<T: Scalar, U1, U2> MulSpecImpl<Scale<T, U1, U2>> for Size3<T, U1> {
    open spec fn obeys_mul_spec() -> bool {
        true
    }

    open spec fn mul_req(self, rhs: Scale<T, U1, U2>) -> bool {
        self@.scale(rhs@).fits::<T>()
    }

    open spec fn mul_spec(self, rhs: Scale<T, U1, U2>) -> Size3<T, U2> {
        Size3 {
            x: T::of_int(self.x.val() * rhs@),
            y: T::of_int(self.y.val() * rhs@),
            z: T::of_int(self.z.val() * rhs@),
            _unit: PhantomData,
        }
    }
}

impl<T: Scalar, U1, U2> Mul<Scale<T, U1, U2>> for Size3<T, U1> {
    type Output = Size3<T, U2>;

    fn mul(self, rhs: Scale<T, U1, U2>) -> (r: Size3<T, U2>)
        ensures
            r@ == self@.scale(rhs@),
    {
        let r = Size3::new(self.x.mul(rhs.0), self.y.mul(rhs.0), self.z.mul(rhs.0));
        proof {
            lemma_is_of_int(r.x);
            lemma_is_of_int(r.y);
            lemma_is_of_int(r.z);
        }
        r
    }
}

impl<T: Scalar, U1, U2> DivSpecImpl<Scale<T, U1, U2>> for Size3<T, U2> {
    open spec fn obeys_div_spec() -> bool {
        true
    }

    open spec fn div_req(self, rhs: Scale<T, U1, U2>) -> bool {
        rhs@ != 0 && self@.div(rhs@).fits::<T>()
    }

    open spec fn div_spec(self, rhs: Scale<T, U1, U2>) -> Size3<T, U1> {
        Size3 {
            x: T::of_int(trunc_div(self.x.val(), rhs@)),
            y: T::of_int(trunc_div(self.y.val(), rhs@)),
            z: T::of_int(trunc_div(self.z.val(), rhs@)),
            _unit: PhantomData,
        }
    }
}

impl<T: Scalar, U1, U2> Div<Scale<T, U1, U2>> for Size3<T, U2> {
    type Output = Size3<T, U1>;

    fn div(self, rhs: Scale<T, U1, U2>) -> (r: Size3<T, U1>)
        ensures
            r@ == self@.div(rhs@),
    {
        let r = Size3::new(self.x.div(rhs.0), self.y.div(rhs.0), self.z.div(rhs.0));
        proof {
            lemma_is_of_int(r.x);
            lemma_is_of_int(r.y);
            lemma_is_of_int(r.z);
        }
        r
    }
}

impl<T: Scalar, U1, U2> MulSpecImpl<Scale<T, U1, U2>> for Box2<T, U1> {
    open spec fn obeys_mul_spec() -> bool {
        true
    }

    open spec fn mul_req(self, rhs: Scale<T, U1, U2>) -> bool {
        self.min@.scale(rhs@).fits::<T>() && self.max@.scale(rhs@).fits::<T>()
    }

    open spec fn mul_spec(self, rhs: Scale<T, U1, U2>) -> Box2<T, U2> {
        Box2 {
            min: Point2 {
                x: T::of_int(self.min.x.val() * rhs@),
                y: T::of_int(self.min.y.val() * rhs@),
                _unit: PhantomData,
            },
            max: Point2 {
                x: T::of_int(self.max.x.val() * rhs@),
                y: T::of_int(self.max.y.val() * rhs@),
                _unit: PhantomData,
            },
        }
    }
}

impl<T: Scalar, U1, U2> Mul<Scale<T, U1, U2>> for Box2<T, U1> {
    type Output = Box2<T, U2>;

    fn mul(self, rhs: Scale<T, U1, U2>) -> (r: Box2<T, U2>)
        ensures
            r.min@ == self.min@.scale(rhs@),
            r.max@ == self.max@.scale(rhs@),
    {
        let r = Box2::new(self.min * rhs, self.max * rhs);
        proof {
            lemma_is_of_int(r.min.x);
            lemma_is_of_int(r.min.y);
            lemma_is_of_int(r.max.x);
            lemma_is_of_int(r.max.y);
        }
        r
    }
}

impl<T: Scalar, U1, U2> DivSpecImpl<Scale<T, U1, U2>> for Box2<T, U2> {
    open spec fn obeys_div_spec() -> bool {
        true
    }

    open spec fn div_req(self, rhs: Scale<T, U1, U2>) -> bool {
        rhs@ != 0 && self.min@.div(rhs@).fits::<T>() && self.max@.div(rhs@).fits::<T>()
    }

    open spec fn div_spec(self, rhs: Scale<T, U1, U2>) -> Box2<T, U1> {
        Box2 {
            min: Point2 {
                x: T::of_int(trunc_div(self.min.x.val(), rhs@)),
                y: T::of_int(trunc_div(self.min.y.val(), rhs@)),
                _unit: PhantomData,
            },
            max: Point2 {
                x: T::of_int(trunc_div(self.max.x.val(), rhs@)),
                y: T::of_int(trunc_div(self.max.y.val(), rhs@)),
                _unit: PhantomData,
            },
        }
    }
}

impl<T: Scalar, U1, U2> Div<Scale<T, U1, U2>> for Box2<T, U2> {
    type Output = Box2<T, U1>;

    fn div(self, rhs: Scale<T, U1, U2>) -> (r: Box2<T, U1>)
        ensures
            r.min@ == self.min@.div(rhs@),
            r.max@ == self.max@.div(rhs@),
    {
        let r = Box2::new(self.min / rhs, self.max / rhs);
        proof {
            lemma_is_of_int(r.min.x);
            lemma_is_of_int(r.min.y);
            lemma_is_of_int(r.max.x);
            lemma_is_of_int(r.max.y);
        }
        r
    }
}

impl<T: Scalar, U1, U2> MulSpecImpl<Scale<T, U1, U2>> for Box3<T, U1> {
    open spec fn obeys_mul_spec() -> bool {
        true
    }

    open spec fn mul_req(self, rhs: Scale<T, U1, U2>) -> bool {
        self.min@.scale(rhs@).fits::<T>() && self.max@.scale(rhs@).fits::<T>()
    }

    open spec fn mul_spec(self, rhs: Scale<T, U1, U2>) -> Box3<T, U2> {
        Box3 {
            min: Point3 {
                x: T::of_int(self.min.x.val() * rhs@),
                y: T::of_int(self.min.y.val() * rhs@),
                z: T::of_int(self.min.z.val() * rhs@),
                _unit: PhantomData,
            },
            max: Point3 {
                x: T::of_int(self.max.x.val() * rhs@),
                y: T::of_int(self.max.y.val() * rhs@),
                z: T::of_int(self.max.z.val() * rhs@),
                _unit: PhantomData,
            },
        }
    }
}

impl<T: Scalar, U1, U2> Mul<Scale<T, U1, U2>> for Box3<T, U1> {
    type Output = Box3<T, U2>;

    fn mul(self, rhs: Scale<T, U1, U2>) -> (r: Box3<T, U2>)
        ensures
            r.min@ == self.min@.scale(rhs@),
            r.max@ == self.max@.scale(rhs@),
    {
        let r = Box3::new(self.min * rhs, self.max * rhs);
        proof {
            lemma_is_of_int(r.min.x);
            lemma_is_of_int(r.min.y);
            lemma_is_of_int(r.min.z);
            lemma_is_of_int(r.max.x);
            lemma_is_of_int(r.max.y);
            lemma_is_of_int(r.max.z);
        }
        r
    }
}

impl<T: Scalar, U1, U2> DivSpecImpl<Scale<T, U1, U2>> for Box3<T, U2> {
    open spec fn obeys_div_spec() -> bool {
        true
    }

    open spec fn div_req(self, rhs: Scale<T, U1, U2>) -> bool {
        rhs@ != 0 && self.min@.div(rhs@).fits::<T>() && self.max@.div(rhs@).fits::<T>()
    }

    open spec fn div_spec(self, rhs: Scale<T, U1, U2>) -> Box3<T, U1> {
        Box3 {
            min: Point3 {
                x: T::of_int(trunc_div(self.min.x.val(), rhs@)),
                y: T::of_int(trunc_div(self.min.y.val(), rhs@)),
                z: T::of_int(trunc_div(self.min.z.val(), rhs@)),
                _unit: PhantomData,
            },
            max: Point3 {
                x: T::of_int(trunc_div(self.max.x.val(), rhs@)),
                y: T::of_int(trunc_div(self.max.y.val(), rhs@)),
                z: T::of_int(trunc_div(self.max.z.val(), rhs@)),
                _unit: PhantomData,
            },
        }
    }
}

impl<T: Scalar, U1, U2> Div<Scale<T, U1, U2>> for Box3<T, U2> {
    type Output = Box3<T, U1>;

    fn div(self, rhs: Scale<T, U1, U2>) -> (r: Box3<T, U1>)
        ensures
            r.min@ == self.min@.div(rhs@),
            r.max@ == self.max@.div(rhs@),
    {
        let r = Box3::new(self.min / rhs, self.max / rhs);
        proof {
            lemma_is_of_int(r.min.x);
            lemma_is_of_int(r.min.y);
            lemma_is_of_int(r.min.z);
            lemma_is_of_int(r.max.x);
            lemma_is_of_int(r.max.y);
            lemma_is_of_int(r.max.z);
        }
        r
    }
}

} // verus!

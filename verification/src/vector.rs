//! Vectors: displacements between points, tagged with the space they are
//! measured in.
use vstd::prelude::*;
use vstd::std_specs::cmp::PartialEqSpecImpl;
use vstd::std_specs::convert::FromSpecImpl;
use vstd::std_specs::ops::{AddSpecImpl, DivSpecImpl, MulSpecImpl, NegSpecImpl, SubSpecImpl};
use std::marker::PhantomData;
use std::ops::{Add, Div, Index, Mul, Neg, Sub};
use crate::arith::{dot2, dot2_fits, dot3, dot3_fits, lerp_fits};
use crate::mask::{Mask2, Mask3};
use crate::model::{Vec2, Vec3};
use crate::num::{
    castable, lemma_is_of_int, max, min, trunc_div, try_cast, Ceil, Floor, One, Round, Scalar,
    Trig, Zero,
};
use crate::point::{Point2, Point3};
use crate::size::{Size2, Size3};
use crate::space::{Axis2, Axis3, Normal, UnknownUnit};
use crate::translation::{Translation2, Translation3};
use crate::units::Angle;

verus! {
/// A covector of the plane: a 2D vector in the space of normals.
pub type Normal2<T, U> = Vector2<T, Normal<U>>;

/// A covector of space: a 3D vector in the space of normals.
pub type Normal3<T, U> = Vector3<T, Normal<U>>;

/// A displacement with 2 components, measured in space `U`.
#[derive(Debug, Hash)]
pub struct Vector2<T, U> {
    pub x: T,
    pub y: T,
    pub _unit: PhantomData<U>,
}

impl<T: Copy, U> Copy for Vector2<T, U> {
}

impl<T: Copy, U> Clone for Vector2<T, U> {
    fn clone(&self) -> (r: Self)
        ensures
            r == *self,
    {
        *self
    }
}

impl<T: Scalar, U> View for Vector2<T, U> {
    type V = Vec2;

    /// The integers the components stand for.
    open spec fn view(&self) -> Vec2 {
        Vec2 { x: self.x.val(), y: self.y.val() }
    }
}

impl<T: Scalar, U> PartialEqSpecImpl for Vector2<T, U> {
    open spec fn obeys_eq_spec() -> bool {
        true
    }

    open spec fn eq_spec(&self, other: &Self) -> bool {
        self@ == other@
    }
}

impl<T: Scalar, U> PartialEq for Vector2<T, U> {
    fn eq(&self, other: &Self) -> (r: bool) {
        self.x.eq(other.x) && self.y.eq(other.y)
    }
}

impl<T: Scalar, U> Eq for Vector2<T, U> {
}

impl<T, U> Vector2<T, U> {
    pub fn new(x: T, y: T) -> (r: Self)
        ensures
            r.x == x,
            r.y == y,
    {
        Self { x, y, _unit: PhantomData }
    }

    /// The value with every component equal to `v`.
    pub fn splat(v: T) -> (r: Self) where T: Copy
        ensures
            r.x == v,
            r.y == v,
    {
        Self::new(v, v)
    }

    /// The same components with the space forgotten.
    pub fn erase_unit(self) -> (r: Vector2<T, UnknownUnit>)
        ensures
            r.x == self.x,
            r.y == self.y,
    {
        Vector2::new(self.x, self.y)
    }

    pub fn to_array(self) -> (r: [T; 2])
        ensures
            r@ == seq![self.x, self.y],
    {
        [self.x, self.y]
    }

    pub fn to_tuple(self) -> (r: (T, T))
        ensures
            r == (self.x, self.y),
    {
        (self.x, self.y)
    }

    /// The component along `axis`.
    pub fn get(&self, axis: Axis2) -> (r: T) where T: Copy
        ensures
            r == (match axis {
                Axis2::X => self.x,
                Axis2::Y => self.y,
            }),
    {
        match axis {
            Axis2::X => self.x,
            Axis2::Y => self.y,
        }
    }

    /// Replaces the component along `axis`, leaving the others as they were.
    pub fn set(&mut self, axis: Axis2, value: T) where T: Copy
        ensures
            final(self).get_spec(axis) == value,
            forall|other: Axis2| other != axis ==> final(self).get_spec(other)
                == old(self).get_spec(other),
    {
        match axis {
            Axis2::X => {
                self.x = value;
            },
            Axis2::Y => {
                self.y = value;
            },
        }
    }

    /// The component along `axis`.
    pub open spec fn get_spec(&self, axis: Axis2) -> T {
        match axis {
            Axis2::X => self.x,
            Axis2::Y => self.y,
        }
    }

    /// The point this vector leads to from the origin.
    pub fn to_point(self) -> (r: Point2<T, U>)
        ensures
            r.x == self.x,
            r.y == self.y,
    {
        Point2::new(self.x, self.y)
    }

    /// The same components read as a covector.
    pub fn to_normal(self) -> (r: Vector2<T, Normal<U>>)
        ensures
            r.x == self.x,
            r.y == self.y,
    {
        Vector2::new(self.x, self.y)
    }

    /// The same components read as extents.
    pub fn to_size(self) -> (r: Size2<T, U>)
        ensures
            r.x == self.x,
            r.y == self.y,
    {
        Size2::new(self.x, self.y)
    }

    /// The 3D vector with the given third component.
    pub fn extend(self, z: T) -> (r: Vector3<T, U>)
        ensures
            r.x == self.x,
            r.y == self.y,
            r.z == z,
    {
        Vector3::new(self.x, self.y, z)
    }

    /// Each component rounded to the nearest whole value.
    pub fn round(self) -> (r: Self) where T: Round
        ensures
            r == self.round_spec(),
    {
        Round::round(self)
    }

    /// Each component rounded up.
    pub fn ceil(self) -> (r: Self) where T: Ceil
        ensures
            r == self.ceil_spec(),
    {
        Ceil::ceil(self)
    }

    /// Each component rounded down.
    pub fn floor(self) -> (r: Self) where T: Floor
        ensures
            r == self.floor_spec(),
    {
        Floor::floor(self)
    }
}

impl<T, U> Vector2<T, Normal<U>> {
    /// The same components read as an ordinary vector.
    pub fn to_vector(self) -> (r: Vector2<T, U>)
        ensures
            r.x == self.x,
            r.y == self.y,
    {
        Vector2::new(self.x, self.y)
    }
}

impl<T: Scalar, U> Vector2<T, U> {
    /// Values with the same view are the same value.
    pub proof fn lemma_view_injective(self, other: Self)
        requires
            self@ == other@,
        ensures
            self == other,
    {
        self.x.lemma_val_injective(other.x);
        self.y.lemma_val_injective(other.y);
    }

    /// The squared Euclidean length.
    pub fn length_squared(self) -> (r: T)
        requires
            dot2_fits::<T>(self@.x, self@.x, self@.y, self@.y),
        ensures
            r.val() == self@.dot(self@),
    {
        dot2(self.x, self.x, self.y, self.y)
    }

    /// The dot product.
    pub fn dot(self, other: Self) -> (r: T)
        requires
            dot2_fits::<T>(self@.x, other@.x, self@.y, other@.y),
        ensures
            r.val() == self@.dot(other@),
    {
        dot2(self.x, other.x, self.y, other.y)
    }

    /// The signed area of the parallelogram spanned by `self` and `other`.
    pub fn cross(self, other: Self) -> (r: T)
        requires
            T::fits(self@.x * other@.y),
            T::fits(self@.y * other@.x),
            T::fits(self@.cross(other@)),
        ensures
            r.val() == self@.cross(other@),
    {
        self.x.mul(other.y).sub(self.y.mul(other.x))
    }

    /// The angle from `self` to `other`: the approximate arctangent of their
    /// cross product over their dot product.
    pub fn angle_between(self, other: Self) -> (r: Angle<T>) where T: Trig
        requires
            T::fits(self@.x * other@.y),
            T::fits(self@.y * other@.x),
            T::fits(self@.cross(other@)),
            dot2_fits::<T>(self@.x, other@.x, self@.y, other@.y),
        ensures
            r.0 == T::fast_atan2_spec(
                T::of_int(self@.cross(other@)),
                T::of_int(self@.dot(other@)),
            ),
    {
        let c = self.cross(other);
        let d = self.dot(other);
        proof {
            lemma_is_of_int(c);
            lemma_is_of_int(d);
        }
        Angle::from_radians(Trig::fast_atan2(c, d))
    }

    /// The projection of `self` onto the line along `onto`: `onto` scaled by
    /// the quotient of the dot product of `self` and `onto` by that of `onto` with itself, rounded toward zero.
    pub fn project_onto(self, onto: Self) -> (r: Self)
        requires
            dot2_fits::<T>(self@.x, onto@.x, self@.y, onto@.y),
            dot2_fits::<T>(onto@.x, onto@.x, onto@.y, onto@.y),
            onto@.dot(onto@) != 0,
            T::fits(trunc_div(self@.dot(onto@), onto@.dot(onto@))),
            onto@.scale(trunc_div(self@.dot(onto@), onto@.dot(onto@))).fits::<T>(),
        ensures
            r@ == onto@.scale(trunc_div(self@.dot(onto@), onto@.dot(onto@))),
    {
        onto * self.dot(onto).div(onto.length_squared())
    }

    /// The mirror image of `self` in the line whose normal is `normal`:
    /// `self - normal * 2 * dot(self, normal)`.
    pub fn reflect(self, normal: Vector2<T, Normal<U>>) -> (r: Self)
        requires
            T::fits(2),
            normal@.scale(2).fits::<T>(),
            dot2_fits::<T>(self@.x, normal@.x, self@.y, normal@.y),
            normal@.scale(2).scale(self@.dot(normal@)).fits::<T>(),
            self@.sub(normal@.scale(2).scale(self@.dot(normal@))).fits::<T>(),
        ensures
            r@ == self@.sub(normal@.scale(2).scale(self@.dot(normal@))),
    {
        let two = T::one().add(T::one());
        let normal = Self::new(normal.x, normal.y);
        self - normal * two * self.dot(normal)
    }

    /// The componentwise absolute value.
    pub fn abs(self) -> (r: Self)
        requires
            self@.abs().fits::<T>(),
        ensures
            r@ == self@.abs(),
    {
        Self::new(self.x.abs(), self.y.abs())
    }

    /// The blend `(1 - t) * self + t * other`, componentwise.
    pub fn lerp(self, other: Self, t: T) -> (r: Self)
        requires
            lerp_fits::<T>(self@.x, other@.x, t.val()),
            lerp_fits::<T>(self@.y, other@.y, t.val()),
        ensures
            r@ == self@.lerp(other@, t.val()),
    {
        let one_minus_t = T::one().sub(t);
        Self::new(
            one_minus_t.mul(self.x).add(t.mul(other.x)),
            one_minus_t.mul(self.y).add(t.mul(other.y)),
        )
    }

    /// The same value over another scalar type, or nothing when a component
    /// is not representable there.
    pub fn try_cast<NewT: Scalar>(self) -> (r: Option<Vector2<NewT, U>>)
        ensures
            r.is_some() <==> (castable::<NewT>(self@.x) && castable::<NewT>(self@.y)),
            r matches Some(c) ==> c@ == self@,
    {
        match (try_cast::<T, NewT>(self.x), try_cast::<T, NewT>(self.y)) {
            (Some(x), Some(y)) => Some(Vector2::new(x, y)),
            _ => None,
        }
    }

    /// The same value over another scalar type, which must be able to
    /// represent every component.
    pub fn cast<NewT: Scalar>(self) -> (r: Vector2<NewT, U>)
        requires
            castable::<NewT>(self@.x),
            castable::<NewT>(self@.y),
        ensures
            r@ == self@,
    {
        match self.try_cast() {
            Some(c) => c,
            None => {
                proof {
                    assert(false);
                }
                Vector2::new(NewT::zero(), NewT::zero())
            },
        }
    }

    /// The same value with 32-bit coordinates, which must suffice.
    pub fn to_i32(self) -> (r: Vector2<i32, U>)
        requires
            castable::<i32>(self@.x),
            castable::<i32>(self@.y),
        ensures
            r@ == self@,
    {
        self.cast()
    }

    /// The same value with 64-bit coordinates, which must suffice.
    pub fn to_i64(self) -> (r: Vector2<i64, U>)
        requires
            castable::<i64>(self@.x),
            castable::<i64>(self@.y),
        ensures
            r@ == self@,
    {
        self.cast()
    }

    /// The componentwise product.
    pub fn component_mul(self, rhs: Self) -> (r: Self)
        requires
            self@.component_mul(rhs@).fits::<T>(),
        ensures
            r@ == self@.component_mul(rhs@),
    {
        Self::new(self.x.mul(rhs.x), self.y.mul(rhs.y))
    }

    /// The componentwise quotient, rounded toward zero.
    pub fn component_div(self, rhs: Self) -> (r: Self)
        requires
            rhs@.x != 0,
            rhs@.y != 0,
            self@.component_div(rhs@).fits::<T>(),
        ensures
            r@ == self@.component_div(rhs@),
    {
        Self::new(self.x.div(rhs.x), self.y.div(rhs.y))
    }

    /// Which components are equal.
    pub fn cmp_eq(self, other: Self) -> (r: Mask2)
        ensures
            r == (Mask2 { x: self@.x == other@.x, y: self@.y == other@.y }),
    {
        Mask2 { x: self.x.eq(other.x), y: self.y.eq(other.y) }
    }

    /// Which components differ.
    pub fn cmp_ne(self, other: Self) -> (r: Mask2)
        ensures
            r == (Mask2 { x: self@.x != other@.x, y: self@.y != other@.y }),
    {
        Mask2 { x: self.x.ne(other.x), y: self.y.ne(other.y) }
    }

    /// Which components are smaller than `other`'s.
    pub fn cmp_lt(self, other: Self) -> (r: Mask2)
        ensures
            r == (Mask2 { x: self@.x < other@.x, y: self@.y < other@.y }),
    {
        Mask2 { x: self.x.lt(other.x), y: self.y.lt(other.y) }
    }

    /// Which components are at most `other`'s.
    pub fn cmp_le(self, other: Self) -> (r: Mask2)
        ensures
            r == (Mask2 { x: self@.x <= other@.x, y: self@.y <= other@.y }),
    {
        Mask2 { x: self.x.le(other.x), y: self.y.le(other.y) }
    }

    /// Which components are greater than `other`'s.
    pub fn cmp_gt(self, other: Self) -> (r: Mask2)
        ensures
            r == (Mask2 { x: self@.x > other@.x, y: self@.y > other@.y }),
    {
        Mask2 { x: self.x.gt(other.x), y: self.y.gt(other.y) }
    }

    /// Which components are at least `other`'s.
    pub fn cmp_ge(self, other: Self) -> (r: Mask2)
        ensures
            r == (Mask2 { x: self@.x >= other@.x, y: self@.y >= other@.y }),
    {
        Mask2 { x: self.x.ge(other.x), y: self.y.ge(other.y) }
    }

    /// The componentwise minimum.
    pub fn min(self, other: Self) -> (r: Self)
        ensures
            r@ == self@.min(other@),
    {
        Self::new(min(self.x, other.x), min(self.y, other.y))
    }

    /// The componentwise maximum.
    pub fn max(self, other: Self) -> (r: Self)
        ensures
            r@ == self@.max(other@),
    {
        Self::new(max(self.x, other.x), max(self.y, other.y))
    }

    /// Each component raised to at least `min`'s, then lowered to at most `max`'s.
    pub fn clamp(self, min: Self, max: Self) -> (r: Self)
        ensures
            r@ == self@.max(min@).min(max@),
    {
        self.max(min).min(max)
    }
}

impl<T: Scalar, U> Default for Vector2<T, U> {
    /// The value whose components are all zero.
    fn default() -> (r: Self)
        ensures
            r@ == Vec2::zero(),
    {
        Self::new(T::zero(), T::zero())
    }
}

impl<T: Scalar, U> Zero for Vector2<T, U> {
    open spec fn is_zero(&self) -> bool {
        self@ == Vec2::zero()
    }

    fn zero() -> (r: Self) {
        Self::new(T::zero(), T::zero())
    }
}

impl<T: Round, U> Round for Vector2<T, U> {
    open spec fn round_spec(self) -> Self {
        Vector2 { x: self.x.round_spec(), y: self.y.round_spec(), _unit: self._unit }
    }

    fn round(self) -> (r: Self) {
        Vector2 { x: self.x.round(), y: self.y.round(), _unit: PhantomData }
    }
}

impl<T: Ceil, U> Ceil for Vector2<T, U> {
    open spec fn ceil_spec(self) -> Self {
        Vector2 { x: self.x.ceil_spec(), y: self.y.ceil_spec(), _unit: self._unit }
    }

    fn ceil(self) -> (r: Self) {
        Vector2 { x: self.x.ceil(), y: self.y.ceil(), _unit: PhantomData }
    }
}

impl<T: Floor, U> Floor for Vector2<T, U> {
    open spec fn floor_spec(self) -> Self {
        Vector2 { x: self.x.floor_spec(), y: self.y.floor_spec(), _unit: self._unit }
    }

    fn floor(self) -> (r: Self) {
        Vector2 { x: self.x.floor(), y: self.y.floor(), _unit: PhantomData }
    }
}

impl<T: Scalar, U> One for Vector2<T, U> {
    open spec fn is_one(&self) -> bool {
        self@ == Vec2::splat(1)
    }

    fn one() -> (r: Self) {
        Self::new(T::one(), T::one())
    }
}

impl<T: Scalar, U> NegSpecImpl for Vector2<T, U> {
    open spec fn obeys_neg_spec() -> bool {
        true
    }

    open spec fn neg_req(self) -> bool {
        self@.neg().fits::<T>()
    }

    open spec fn neg_spec(self) -> Vector2<T, U> {
        Vector2 { x: T::of_int(-self.x.val()), y: T::of_int(-self.y.val()), _unit: PhantomData }
    }
}

impl<T: Scalar, U> Neg for Vector2<T, U> {
    type Output = Vector2<T, U>;

    fn neg(self) -> (r: Vector2<T, U>)
        ensures
            r@ == self@.neg(),
    {
        let r = Vector2::new(self.x.neg(), self.y.neg());
        proof {
            lemma_is_of_int(r.x);
            lemma_is_of_int(r.y);
        }
        r
    }
}

impl<T: Scalar, U> MulSpecImpl<T> for Vector2<T, U> {
    open spec fn obeys_mul_spec() -> bool {
        true
    }

    open spec fn mul_req(self, rhs: T) -> bool {
        self@.scale(rhs.val()).fits::<T>()
    }

    open spec fn mul_spec(self, rhs: T) -> Vector2<T, U> {
        Vector2 {
            x: T::of_int(self.x.val() * rhs.val()),
            y: T::of_int(self.y.val() * rhs.val()),
            _unit: PhantomData,
        }
    }
}

impl<T: Scalar, U> Mul<T> for Vector2<T, U> {
    type Output = Vector2<T, U>;

    fn mul(self, rhs: T) -> (r: Vector2<T, U>)
        ensures
            r@ == self@.scale(rhs.val()),
    {
        let r = Vector2::new(self.x.mul(rhs), self.y.mul(rhs));
        proof {
            lemma_is_of_int(r.x);
            lemma_is_of_int(r.y);
        }
        r
    }
}

impl<T: Scalar, U> DivSpecImpl<T> for Vector2<T, U> {
    open spec fn obeys_div_spec() -> bool {
        true
    }

    open spec fn div_req(self, rhs: T) -> bool {
        rhs.val() != 0 && self@.div(rhs.val()).fits::<T>()
    }

    open spec fn div_spec(self, rhs: T) -> Vector2<T, U> {
        Vector2 {
            x: T::of_int(trunc_div(self.x.val(), rhs.val())),
            y: T::of_int(trunc_div(self.y.val(), rhs.val())),
            _unit: PhantomData,
        }
    }
}

impl<T: Scalar, U> Div<T> for Vector2<T, U> {
    type Output = Vector2<T, U>;

    fn div(self, rhs: T) -> (r: Vector2<T, U>)
        ensures
            r@ == self@.div(rhs.val()),
    {
        let r = Vector2::new(self.x.div(rhs), self.y.div(rhs));
        proof {
            lemma_is_of_int(r.x);
            lemma_is_of_int(r.y);
        }
        r
    }
}

impl<T: Scalar, U> AddSpecImpl<Vector2<T, U>> for Vector2<T, U> {
    open spec fn obeys_add_spec() -> bool {
        true
    }

    open spec fn add_req(self, rhs: Vector2<T, U>) -> bool {
        self@.add(rhs@).fits::<T>()
    }

    open spec fn add_spec(self, rhs: Vector2<T, U>) -> Vector2<T, U> {
        Vector2 {
            x: T::of_int(self.x.val() + rhs.x.val()),
            y: T::of_int(self.y.val() + rhs.y.val()),
            _unit: PhantomData,
        }
    }
}

impl<T: Scalar, U> Add<Vector2<T, U>> for Vector2<T, U> {
    type Output = Vector2<T, U>;

    fn add(self, rhs: Vector2<T, U>) -> (r: Vector2<T, U>)
        ensures
            r@ == self@.add(rhs@),
    {
        let r = Vector2::new(self.x.add(rhs.x), self.y.add(rhs.y));
        proof {
            lemma_is_of_int(r.x);
            lemma_is_of_int(r.y);
        }
        r
    }
}

impl<T: Scalar, U> SubSpecImpl<Vector2<T, U>> for Vector2<T, U> {
    open spec fn obeys_sub_spec() -> bool {
        true
    }

    open spec fn sub_req(self, rhs: Vector2<T, U>) -> bool {
        self@.sub(rhs@).fits::<T>()
    }

    open spec fn sub_spec(self, rhs: Vector2<T, U>) -> Vector2<T, U> {
        Vector2 {
            x: T::of_int(self.x.val() - rhs.x.val()),
            y: T::of_int(self.y.val() - rhs.y.val()),
            _unit: PhantomData,
        }
    }
}

impl<T: Scalar, U> Sub<Vector2<T, U>> for Vector2<T, U> {
    type Output = Vector2<T, U>;

    fn sub(self, rhs: Vector2<T, U>) -> (r: Vector2<T, U>)
        ensures
            r@ == self@.sub(rhs@),
    {
        let r = Vector2::new(self.x.sub(rhs.x), self.y.sub(rhs.y));
        proof {
            lemma_is_of_int(r.x);
            lemma_is_of_int(r.y);
        }
        r
    }
}

impl<T, U> vstd::std_specs::core::IndexSpecImpl<Axis2> for Vector2<T, U> {
    open spec fn index_req(&self, index: &Axis2) -> bool {
        true
    }
}

/// The component along an axis.
impl<T, U> Index<Axis2> for Vector2<T, U> {
    type Output = T;

    fn index(&self, axis: Axis2) -> (r: &T)
        ensures
            *r == self.get_spec(axis),
    {
        match axis {
            Axis2::X => &self.x,
            Axis2::Y => &self.y,
        }
    }
}

impl<T: Copy, U> FromSpecImpl<[T; 2]> for Vector2<T, U> {
    open spec fn obeys_from_spec() -> bool {
        true
    }

    open spec fn from_spec(a: [T; 2]) -> Self {
        Vector2 { x: a[0], y: a[1], _unit: PhantomData }
    }
}

impl<T: Copy, U> From<[T; 2]> for Vector2<T, U> {
    fn from(a: [T; 2]) -> (r: Self) {
        Self::new(a[0], a[1])
    }
}

impl<T, U> FromSpecImpl<(T, T)> for Vector2<T, U> {
    open spec fn obeys_from_spec() -> bool {
        true
    }

    open spec fn from_spec(t: (T, T)) -> Self {
        Vector2 { x: t.0, y: t.1, _unit: PhantomData }
    }
}

impl<T, U> From<(T, T)> for Vector2<T, U> {
    fn from(t: (T, T)) -> (r: Self) {
        Self::new(t.0, t.1)
    }
}

impl<T, U> FromSpecImpl<Vector2<T, U>> for (T, T) {
    open spec fn obeys_from_spec() -> bool {
        true
    }

    open spec fn from_spec(v: Vector2<T, U>) -> Self {
        (v.x, v.y)
    }
}

impl<T, U> From<Vector2<T, U>> for (T, T) {
    fn from(v: Vector2<T, U>) -> (r: Self) {
        (v.x, v.y)
    }
}

impl<T, U> FromSpecImpl<Size2<T, U>> for Vector2<T, U> {
    open spec fn obeys_from_spec() -> bool {
        true
    }

    open spec fn from_spec(v: Size2<T, U>) -> Self {
        Vector2 { x: v.x, y: v.y, _unit: PhantomData }
    }
}

/// The extents read as a displacement.
impl<T, U> From<Size2<T, U>> for Vector2<T, U> {
    fn from(v: Size2<T, U>) -> (r: Self) {
        Self::new(v.x, v.y)
    }
}

impl<T, U1, U2> FromSpecImpl<Translation2<T, U1, U2>> for Vector2<T, U1> {
    open spec fn obeys_from_spec() -> bool {
        true
    }

    open spec fn from_spec(t: Translation2<T, U1, U2>) -> Self {
        Vector2 { x: t.x, y: t.y, _unit: PhantomData }
    }
}

/// The offset of a translation, as a vector of its source space.
impl<T, U1, U2> From<Translation2<T, U1, U2>> for Vector2<T, U1> {
    fn from(t: Translation2<T, U1, U2>) -> (r: Self) {
        Self::new(t.x, t.y)
    }
}

/// A displacement with 3 components, measured in space `U`.
#[derive(Debug, Hash)]
pub struct Vector3<T, U> {
    pub x: T,
    pub y: T,
    pub z: T,
    pub _unit: PhantomData<U>,
}

impl<T: Copy, U> Copy for Vector3<T, U> {
}

impl<T: Copy, U> Clone for Vector3<T, U> {
    fn clone(&self) -> (r: Self)
        ensures
            r == *self,
    {
        *self
    }
}

impl<T: Scalar, U> View for Vector3<T, U> {
    type V = Vec3;

    /// The integers the components stand for.
    open spec fn view(&self) -> Vec3 {
        Vec3 { x: self.x.val(), y: self.y.val(), z: self.z.val() }
    }
}

impl<T: Scalar, U> PartialEqSpecImpl for Vector3<T, U> {
    open spec fn obeys_eq_spec() -> bool {
        true
    }

    open spec fn eq_spec(&self, other: &Self) -> bool {
        self@ == other@
    }
}

impl<T: Scalar, U> PartialEq for Vector3<T, U> {
    fn eq(&self, other: &Self) -> (r: bool) {
        self.x.eq(other.x) && self.y.eq(other.y) && self.z.eq(other.z)
    }
}

impl<T: Scalar, U> Eq for Vector3<T, U> {
}

impl<T, U> Vector3<T, U> {
    pub fn new(x: T, y: T, z: T) -> (r: Self)
        ensures
            r.x == x,
            r.y == y,
            r.z == z,
    {
        Self { x, y, z, _unit: PhantomData }
    }

    /// The value with every component equal to `v`.
    pub fn splat(v: T) -> (r: Self) where T: Copy
        ensures
            r.x == v,
            r.y == v,
            r.z == v,
    {
        Self::new(v, v, v)
    }

    /// The same components with the space forgotten.
    pub fn erase_unit(self) -> (r: Vector3<T, UnknownUnit>)
        ensures
            r.x == self.x,
            r.y == self.y,
            r.z == self.z,
    {
        Vector3::new(self.x, self.y, self.z)
    }

    pub fn to_array(self) -> (r: [T; 3])
        ensures
            r@ == seq![self.x, self.y, self.z],
    {
        [self.x, self.y, self.z]
    }

    pub fn to_tuple(self) -> (r: (T, T, T))
        ensures
            r == (self.x, self.y, self.z),
    {
        (self.x, self.y, self.z)
    }

    /// The component along `axis`.
    pub fn get(&self, axis: Axis3) -> (r: T) where T: Copy
        ensures
            r == (match axis {
                Axis3::X => self.x,
                Axis3::Y => self.y,
                Axis3::Z => self.z,
            }),
    {
        match axis {
            Axis3::X => self.x,
            Axis3::Y => self.y,
            Axis3::Z => self.z,
        }
    }

    /// Replaces the component along `axis`, leaving the others as they were.
    pub fn set(&mut self, axis: Axis3, value: T) where T: Copy
        ensures
            final(self).get_spec(axis) == value,
            forall|other: Axis3| other != axis ==> final(self).get_spec(other)
                == old(self).get_spec(other),
    {
        match axis {
            Axis3::X => {
                self.x = value;
            },
            Axis3::Y => {
                self.y = value;
            },
            Axis3::Z => {
                self.z = value;
            },
        }
    }

    /// The component along `axis`.
    pub open spec fn get_spec(&self, axis: Axis3) -> T {
        match axis {
            Axis3::X => self.x,
            Axis3::Y => self.y,
            Axis3::Z => self.z,
        }
    }

    /// The point this vector leads to from the origin.
    pub fn to_point(self) -> (r: Point3<T, U>)
        ensures
            r.x == self.x,
            r.y == self.y,
            r.z == self.z,
    {
        Point3::new(self.x, self.y, self.z)
    }

    /// The same components read as a covector.
    pub fn to_normal(self) -> (r: Vector3<T, Normal<U>>)
        ensures
            r.x == self.x,
            r.y == self.y,
            r.z == self.z,
    {
        Vector3::new(self.x, self.y, self.z)
    }

    /// The same components read as extents.
    pub fn to_size(self) -> (r: Size3<T, U>)
        ensures
            r.x == self.x,
            r.y == self.y,
            r.z == self.z,
    {
        Size3::new(self.x, self.y, self.z)
    }

    /// Each component rounded to the nearest whole value.
    pub fn round(self) -> (r: Self) where T: Round
        ensures
            r == self.round_spec(),
    {
        Round::round(self)
    }

    /// Each component rounded up.
    pub fn ceil(self) -> (r: Self) where T: Ceil
        ensures
            r == self.ceil_spec(),
    {
        Ceil::ceil(self)
    }

    /// Each component rounded down.
    pub fn floor(self) -> (r: Self) where T: Floor
        ensures
            r == self.floor_spec(),
    {
        Floor::floor(self)
    }
}

impl<T, U> Vector3<T, Normal<U>> {
    /// The same components read as an ordinary vector.
    pub fn to_vector(self) -> (r: Vector3<T, U>)
        ensures
            r.x == self.x,
            r.y == self.y,
            r.z == self.z,
    {
        Vector3::new(self.x, self.y, self.z)
    }
}

impl<T: Scalar, U> Vector3<T, Normal<U>> {
    /// The normal itself when it points to the same side as `v`, its opposite
    /// when it points away: when its dot product with `v` is negative.
    pub fn face_towards(self, v: Vector3<T, U>) -> (r: Self)
        requires
            dot3_fits::<T>(self@.x, v@.x, self@.y, v@.y, self@.z, v@.z),
            self@.dot(v@) < 0 ==> self@.neg().fits::<T>(),
        ensures
            r@ == (if self@.dot(v@) < 0 { self@.neg() } else { self@ }),
    {
        let n = self.to_vector();
        if n.dot(v).lt(T::zero()) {
            self.neg()
        } else {
            self
        }
    }
}

impl<T: Scalar, U> Vector3<T, U> {
    /// Values with the same view are the same value.
    pub proof fn lemma_view_injective(self, other: Self)
        requires
            self@ == other@,
        ensures
            self == other,
    {
        self.x.lemma_val_injective(other.x);
        self.y.lemma_val_injective(other.y);
        self.z.lemma_val_injective(other.z);
    }

    /// The zero vector.
    pub fn zero() -> (r: Self)
        ensures
            r@ == Vec3::zero(),
    {
        Self::new(T::zero(), T::zero(), T::zero())
    }

    /// The squared Euclidean length.
    pub fn length_squared(self) -> (r: T)
        requires
            dot3_fits::<T>(self@.x, self@.x, self@.y, self@.y, self@.z, self@.z),
        ensures
            r.val() == self@.dot(self@),
    {
        dot3(self.x, self.x, self.y, self.y, self.z, self.z)
    }

    /// The dot product.
    pub fn dot(self, other: Self) -> (r: T)
        requires
            dot3_fits::<T>(self@.x, other@.x, self@.y, other@.y, self@.z, other@.z),
        ensures
            r.val() == self@.dot(other@),
    {
        dot3(self.x, other.x, self.y, other.y, self.z, other.z)
    }

    /// The cross product.
    pub fn cross(self, other: Self) -> (r: Self)
        requires
            self@.cross_fits::<T>(other@),
        ensures
            r@ == self@.cross(other@),
    {
        Self::new(
            self.y.mul(other.z).sub(self.z.mul(other.y)),
            self.z.mul(other.x).sub(self.x.mul(other.z)),
            self.x.mul(other.y).sub(self.y.mul(other.x)),
        )
    }

    /// The projection of `self` onto the line along `onto`: `onto` scaled by
    /// the quotient of the dot product of `self` and `onto` by that of `onto` with itself, rounded toward zero.
    pub fn project_onto(self, onto: Self) -> (r: Self)
        requires
            dot3_fits::<T>(self@.x, onto@.x, self@.y, onto@.y, self@.z, onto@.z),
            dot3_fits::<T>(onto@.x, onto@.x, onto@.y, onto@.y, onto@.z, onto@.z),
            onto@.dot(onto@) != 0,
            T::fits(trunc_div(self@.dot(onto@), onto@.dot(onto@))),
            onto@.scale(trunc_div(self@.dot(onto@), onto@.dot(onto@))).fits::<T>(),
        ensures
            r@ == onto@.scale(trunc_div(self@.dot(onto@), onto@.dot(onto@))),
    {
        onto * self.dot(onto).div(onto.length_squared())
    }

    /// The mirror image of `self` in the plane whose normal is `normal`:
    /// `self - normal * 2 * dot(self, normal)`.
    pub fn reflect(self, normal: Vector3<T, Normal<U>>) -> (r: Self)
        requires
            T::fits(2),
            normal@.scale(2).fits::<T>(),
            dot3_fits::<T>(self@.x, normal@.x, self@.y, normal@.y, self@.z, normal@.z),
            normal@.scale(2).scale(self@.dot(normal@)).fits::<T>(),
            self@.sub(normal@.scale(2).scale(self@.dot(normal@))).fits::<T>(),
        ensures
            r@ == self@.sub(normal@.scale(2).scale(self@.dot(normal@))),
    {
        let two = T::one().add(T::one());
        let normal = Self::new(normal.x, normal.y, normal.z);
        self - normal * two * self.dot(normal)
    }

    /// The componentwise absolute value.
    pub fn abs(self) -> (r: Self)
        requires
            self@.abs().fits::<T>(),
        ensures
            r@ == self@.abs(),
    {
        Self::new(self.x.abs(), self.y.abs(), self.z.abs())
    }

    /// The blend `(1 - t) * self + t * other`, componentwise.
    pub fn lerp(self, other: Self, t: T) -> (r: Self)
        requires
            lerp_fits::<T>(self@.x, other@.x, t.val()),
            lerp_fits::<T>(self@.y, other@.y, t.val()),
            lerp_fits::<T>(self@.z, other@.z, t.val()),
        ensures
            r@ == self@.lerp(other@, t.val()),
    {
        let one_minus_t = T::one().sub(t);
        Self::new(
            one_minus_t.mul(self.x).add(t.mul(other.x)),
            one_minus_t.mul(self.y).add(t.mul(other.y)),
            one_minus_t.mul(self.z).add(t.mul(other.z)),
        )
    }

    /// The same value over another scalar type, or nothing when a component
    /// is not representable there.
    pub fn try_cast<NewT: Scalar>(self) -> (r: Option<Vector3<NewT, U>>)
        ensures
            r.is_some(
                ) <==> (castable::<NewT>(self@.x)
                && castable::<NewT>(self@.y)
                && castable::<NewT>(self@.z)
            ),
            r matches Some(c) ==> c@ == self@,
    {
        match (try_cast::<T, NewT>(self.x), try_cast::<T, NewT>(self.y), try_cast::<T, NewT>(self.z)) {
            (Some(x), Some(y), Some(z)) => Some(Vector3::new(x, y, z)),
            _ => None,
        }
    }

    /// The same value over another scalar type, which must be able to
    /// represent every component.
    pub fn cast<NewT: Scalar>(self) -> (r: Vector3<NewT, U>)
        requires
            castable::<NewT>(self@.x),
            castable::<NewT>(self@.y),
            castable::<NewT>(self@.z),
        ensures
            r@ == self@,
    {
        match self.try_cast() {
            Some(c) => c,
            None => {
                proof {
                    assert(false);
                }
                Vector3::new(NewT::zero(), NewT::zero(), NewT::zero())
            },
        }
    }

    /// The same value with 32-bit coordinates, which must suffice.
    pub fn to_i32(self) -> (r: Vector3<i32, U>)
        requires
            castable::<i32>(self@.x),
            castable::<i32>(self@.y),
            castable::<i32>(self@.z),
        ensures
            r@ == self@,
    {
        self.cast()
    }

    /// The same value with 64-bit coordinates, which must suffice.
    pub fn to_i64(self) -> (r: Vector3<i64, U>)
        requires
            castable::<i64>(self@.x),
            castable::<i64>(self@.y),
            castable::<i64>(self@.z),
        ensures
            r@ == self@,
    {
        self.cast()
    }

    /// The componentwise product.
    pub fn component_mul(self, rhs: Self) -> (r: Self)
        requires
            self@.component_mul(rhs@).fits::<T>(),
        ensures
            r@ == self@.component_mul(rhs@),
    {
        Self::new(self.x.mul(rhs.x), self.y.mul(rhs.y), self.z.mul(rhs.z))
    }

    /// The componentwise quotient, rounded toward zero.
    pub fn component_div(self, rhs: Self) -> (r: Self)
        requires
            rhs@.x != 0,
            rhs@.y != 0,
            rhs@.z != 0,
            self@.component_div(rhs@).fits::<T>(),
        ensures
            r@ == self@.component_div(rhs@),
    {
        Self::new(self.x.div(rhs.x), self.y.div(rhs.y), self.z.div(rhs.z))
    }

    /// Which components are equal.
    pub fn cmp_eq(self, other: Self) -> (r: Mask3)
        ensures
            r == (Mask3 { x: self@.x == other@.x, y: self@.y == other@.y, z: self@.z == other@.z }),
    {
        Mask3 { x: self.x.eq(other.x), y: self.y.eq(other.y), z: self.z.eq(other.z) }
    }

    /// Which components differ.
    pub fn cmp_ne(self, other: Self) -> (r: Mask3)
        ensures
            r == (Mask3 { x: self@.x != other@.x, y: self@.y != other@.y, z: self@.z != other@.z }),
    {
        Mask3 { x: self.x.ne(other.x), y: self.y.ne(other.y), z: self.z.ne(other.z) }
    }

    /// Which components are smaller than `other`'s.
    pub fn cmp_lt(self, other: Self) -> (r: Mask3)
        ensures
            r == (Mask3 { x: self@.x < other@.x, y: self@.y < other@.y, z: self@.z < other@.z }),
    {
        Mask3 { x: self.x.lt(other.x), y: self.y.lt(other.y), z: self.z.lt(other.z) }
    }

    /// Which components are at most `other`'s.
    pub fn cmp_le(self, other: Self) -> (r: Mask3)
        ensures
            r == (Mask3 { x: self@.x <= other@.x, y: self@.y <= other@.y, z: self@.z <= other@.z }),
    {
        Mask3 { x: self.x.le(other.x), y: self.y.le(other.y), z: self.z.le(other.z) }
    }

    /// Which components are greater than `other`'s.
    pub fn cmp_gt(self, other: Self) -> (r: Mask3)
        ensures
            r == (Mask3 { x: self@.x > other@.x, y: self@.y > other@.y, z: self@.z > other@.z }),
    {
        Mask3 { x: self.x.gt(other.x), y: self.y.gt(other.y), z: self.z.gt(other.z) }
    }

    /// Which components are at least `other`'s.
    pub fn cmp_ge(self, other: Self) -> (r: Mask3)
        ensures
            r == (Mask3 { x: self@.x >= other@.x, y: self@.y >= other@.y, z: self@.z >= other@.z }),
    {
        Mask3 { x: self.x.ge(other.x), y: self.y.ge(other.y), z: self.z.ge(other.z) }
    }

    /// The componentwise minimum.
    pub fn min(self, other: Self) -> (r: Self)
        ensures
            r@ == self@.min(other@),
    {
        Self::new(min(self.x, other.x), min(self.y, other.y), min(self.z, other.z))
    }

    /// The componentwise maximum.
    pub fn max(self, other: Self) -> (r: Self)
        ensures
            r@ == self@.max(other@),
    {
        Self::new(max(self.x, other.x), max(self.y, other.y), max(self.z, other.z))
    }

    /// Each component raised to at least `min`'s, then lowered to at most `max`'s.
    pub fn clamp(self, min: Self, max: Self) -> (r: Self)
        ensures
            r@ == self@.max(min@).min(max@),
    {
        self.max(min).min(max)
    }
}

impl<T: Scalar, U> Default for Vector3<T, U> {
    /// The value whose components are all zero.
    fn default() -> (r: Self)
        ensures
            r@ == Vec3::zero(),
    {
        Self::new(T::zero(), T::zero(), T::zero())
    }
}

impl<T: Scalar, U> Zero for Vector3<T, U> {
    open spec fn is_zero(&self) -> bool {
        self@ == Vec3::zero()
    }

    fn zero() -> (r: Self) {
        Self::new(T::zero(), T::zero(), T::zero())
    }
}

impl<T: Round, U> Round for Vector3<T, U> {
    open spec fn round_spec(self) -> Self {
        Vector3 {
            x: self.x.round_spec(),
            y: self.y.round_spec(),
            z: self.z.round_spec(),
            _unit: self._unit,
        }
    }

    fn round(self) -> (r: Self) {
        Vector3 { x: self.x.round(), y: self.y.round(), z: self.z.round(), _unit: PhantomData }
    }
}

impl<T: Ceil, U> Ceil for Vector3<T, U> {
    open spec fn ceil_spec(self) -> Self {
        Vector3 {
            x: self.x.ceil_spec(),
            y: self.y.ceil_spec(),
            z: self.z.ceil_spec(),
            _unit: self._unit,
        }
    }

    fn ceil(self) -> (r: Self) {
        Vector3 { x: self.x.ceil(), y: self.y.ceil(), z: self.z.ceil(), _unit: PhantomData }
    }
}

impl<T: Floor, U> Floor for Vector3<T, U> {
    open spec fn floor_spec(self) -> Self {
        Vector3 {
            x: self.x.floor_spec(),
            y: self.y.floor_spec(),
            z: self.z.floor_spec(),
            _unit: self._unit,
        }
    }

    fn floor(self) -> (r: Self) {
        Vector3 { x: self.x.floor(), y: self.y.floor(), z: self.z.floor(), _unit: PhantomData }
    }
}

impl<T: Scalar, U> One for Vector3<T, U> {
    open spec fn is_one(&self) -> bool {
        self@ == Vec3::splat(1)
    }

    fn one() -> (r: Self) {
        Self::new(T::one(), T::one(), T::one())
    }
}

impl<T: Scalar, U> NegSpecImpl for Vector3<T, U> {
    open spec fn obeys_neg_spec() -> bool {
        true
    }

    open spec fn neg_req(self) -> bool {
        self@.neg().fits::<T>()
    }

    open spec fn neg_spec(self) -> Vector3<T, U> {
        Vector3 {
            x: T::of_int(-self.x.val()),
            y: T::of_int(-self.y.val()),
            z: T::of_int(-self.z.val()),
            _unit: PhantomData,
        }
    }
}

impl<T: Scalar, U> Neg for Vector3<T, U> {
    type Output = Vector3<T, U>;

    fn neg(self) -> (r: Vector3<T, U>)
        ensures
            r@ == self@.neg(),
    {
        let r = Vector3::new(self.x.neg(), self.y.neg(), self.z.neg());
        proof {
            lemma_is_of_int(r.x);
            lemma_is_of_int(r.y);
            lemma_is_of_int(r.z);
        }
        r
    }
}

impl<T: Scalar, U> MulSpecImpl<T> for Vector3<T, U> {
    open spec fn obeys_mul_spec() -> bool {
        true
    }

    open spec fn mul_req(self, rhs: T) -> bool {
        self@.scale(rhs.val()).fits::<T>()
    }

    open spec fn mul_spec(self, rhs: T) -> Vector3<T, U> {
        Vector3 {
            x: T::of_int(self.x.val() * rhs.val()),
            y: T::of_int(self.y.val() * rhs.val()),
            z: T::of_int(self.z.val() * rhs.val()),
            _unit: PhantomData,
        }
    }
}

impl<T: Scalar, U> Mul<T> for Vector3<T, U> {
    type Output = Vector3<T, U>;

    fn mul(self, rhs: T) -> (r: Vector3<T, U>)
        ensures
            r@ == self@.scale(rhs.val()),
    {
        let r = Vector3::new(self.x.mul(rhs), self.y.mul(rhs), self.z.mul(rhs));
        proof {
            lemma_is_of_int(r.x);
            lemma_is_of_int(r.y);
            lemma_is_of_int(r.z);
        }
        r
    }
}

impl<T: Scalar, U> DivSpecImpl<T> for Vector3<T, U> {
    open spec fn obeys_div_spec() -> bool {
        true
    }

    open spec fn div_req(self, rhs: T) -> bool {
        rhs.val() != 0 && self@.div(rhs.val()).fits::<T>()
    }

    open spec fn div_spec(self, rhs: T) -> Vector3<T, U> {
        Vector3 {
            x: T::of_int(trunc_div(self.x.val(), rhs.val())),
            y: T::of_int(trunc_div(self.y.val(), rhs.val())),
            z: T::of_int(trunc_div(self.z.val(), rhs.val())),
            _unit: PhantomData,
        }
    }
}

impl<T: Scalar, U> Div<T> for Vector3<T, U> {
    type Output = Vector3<T, U>;

    fn div(self, rhs: T) -> (r: Vector3<T, U>)
        ensures
            r@ == self@.div(rhs.val()),
    {
        let r = Vector3::new(self.x.div(rhs), self.y.div(rhs), self.z.div(rhs));
        proof {
            lemma_is_of_int(r.x);
            lemma_is_of_int(r.y);
            lemma_is_of_int(r.z);
        }
        r
    }
}

impl<T: Scalar, U> AddSpecImpl<Vector3<T, U>> for Vector3<T, U> {
    open spec fn obeys_add_spec() -> bool {
        true
    }

    open spec fn add_req(self, rhs: Vector3<T, U>) -> bool {
        self@.add(rhs@).fits::<T>()
    }

    open spec fn add_spec(self, rhs: Vector3<T, U>) -> Vector3<T, U> {
        Vector3 {
            x: T::of_int(self.x.val() + rhs.x.val()),
            y: T::of_int(self.y.val() + rhs.y.val()),
            z: T::of_int(self.z.val() + rhs.z.val()),
            _unit: PhantomData,
        }
    }
}

impl<T: Scalar, U> Add<Vector3<T, U>> for Vector3<T, U> {
    type Output = Vector3<T, U>;

    fn add(self, rhs: Vector3<T, U>) -> (r: Vector3<T, U>)
        ensures
            r@ == self@.add(rhs@),
    {
        let r = Vector3::new(self.x.add(rhs.x), self.y.add(rhs.y), self.z.add(rhs.z));
        proof {
            lemma_is_of_int(r.x);
            lemma_is_of_int(r.y);
            lemma_is_of_int(r.z);
        }
        r
    }
}

impl<T: Scalar, U> SubSpecImpl<Vector3<T, U>> for Vector3<T, U> {
    open spec fn obeys_sub_spec() -> bool {
        true
    }

    open spec fn sub_req(self, rhs: Vector3<T, U>) -> bool {
        self@.sub(rhs@).fits::<T>()
    }

    open spec fn sub_spec(self, rhs: Vector3<T, U>) -> Vector3<T, U> {
        Vector3 {
            x: T::of_int(self.x.val() - rhs.x.val()),
            y: T::of_int(self.y.val() - rhs.y.val()),
            z: T::of_int(self.z.val() - rhs.z.val()),
            _unit: PhantomData,
        }
    }
}

impl<T: Scalar, U> Sub<Vector3<T, U>> for Vector3<T, U> {
    type Output = Vector3<T, U>;

    fn sub(self, rhs: Vector3<T, U>) -> (r: Vector3<T, U>)
        ensures
            r@ == self@.sub(rhs@),
    {
        let r = Vector3::new(self.x.sub(rhs.x), self.y.sub(rhs.y), self.z.sub(rhs.z));
        proof {
            lemma_is_of_int(r.x);
            lemma_is_of_int(r.y);
            lemma_is_of_int(r.z);
        }
        r
    }
}

impl<T, U> vstd::std_specs::core::IndexSpecImpl<Axis3> for Vector3<T, U> {
    open spec fn index_req(&self, index: &Axis3) -> bool {
        true
    }
}

/// The component along an axis.
impl<T, U> Index<Axis3> for Vector3<T, U> {
    type Output = T;

    fn index(&self, axis: Axis3) -> (r: &T)
        ensures
            *r == self.get_spec(axis),
    {
        match axis {
            Axis3::X => &self.x,
            Axis3::Y => &self.y,
            Axis3::Z => &self.z,
        }
    }
}

impl<T: Copy, U> FromSpecImpl<[T; 3]> for Vector3<T, U> {
    open spec fn obeys_from_spec() -> bool {
        true
    }

    open spec fn from_spec(a: [T; 3]) -> Self {
        Vector3 { x: a[0], y: a[1], z: a[2], _unit: PhantomData }
    }
}

impl<T: Copy, U> From<[T; 3]> for Vector3<T, U> {
    fn from(a: [T; 3]) -> (r: Self) {
        Self::new(a[0], a[1], a[2])
    }
}

impl<T, U> FromSpecImpl<(T, T, T)> for Vector3<T, U> {
    open spec fn obeys_from_spec() -> bool {
        true
    }

    open spec fn from_spec(t: (T, T, T)) -> Self {
        Vector3 { x: t.0, y: t.1, z: t.2, _unit: PhantomData }
    }
}

impl<T, U> From<(T, T, T)> for Vector3<T, U> {
    fn from(t: (T, T, T)) -> (r: Self) {
        Self::new(t.0, t.1, t.2)
    }
}

impl<T, U> FromSpecImpl<Vector3<T, U>> for (T, T, T) {
    open spec fn obeys_from_spec() -> bool {
        true
    }

    open spec fn from_spec(v: Vector3<T, U>) -> Self {
        (v.x, v.y, v.z)
    }
}

impl<T, U> From<Vector3<T, U>> for (T, T, T) {
    fn from(v: Vector3<T, U>) -> (r: Self) {
        (v.x, v.y, v.z)
    }
}

impl<T, U> FromSpecImpl<Size3<T, U>> for Vector3<T, U> {
    open spec fn obeys_from_spec() -> bool {
        true
    }

    open spec fn from_spec(v: Size3<T, U>) -> Self {
        Vector3 { x: v.x, y: v.y, z: v.z, _unit: PhantomData }
    }
}

/// The extents read as a displacement.
impl<T, U> From<Size3<T, U>> for Vector3<T, U> {
    fn from(v: Size3<T, U>) -> (r: Self) {
        Self::new(v.x, v.y, v.z)
    }
}

impl<T, U1, U2> FromSpecImpl<Translation3<T, U1, U2>> for Vector3<T, U1> {
    open spec fn obeys_from_spec() -> bool {
        true
    }

    open spec fn from_spec(t: Translation3<T, U1, U2>) -> Self {
        Vector3 { x: t.x, y: t.y, z: t.z, _unit: PhantomData }
    }
}

/// The offset of a translation, as a vector of its source space.
impl<T, U1, U2> From<Translation3<T, U1, U2>> for Vector3<T, U1> {
    fn from(t: Translation3<T, U1, U2>) -> (r: Self) {
        Self::new(t.x, t.y, t.z)
    }
}

} // verus!

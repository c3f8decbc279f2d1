//! Points: positions, tagged with the space they are measured in.
use vstd::prelude::*;
use vstd::std_specs::cmp::PartialEqSpecImpl;
use vstd::std_specs::convert::FromSpecImpl;
use vstd::std_specs::ops::{AddSpecImpl, DivSpecImpl, MulSpecImpl, NegSpecImpl, SubSpecImpl};
use std::marker::PhantomData;
use std::ops::{Add, Div, Index, Mul, Neg, Sub};
use crate::arith::lerp_fits;
use crate::model::{Vec2, Vec3};
use crate::num::{
    castable, lemma_is_of_int, max, min, trunc_div, try_cast, Ceil, Floor, Round, Scalar, Zero,
};
use crate::size::{Size2, Size3};
use crate::space::{Axis2, Axis3, UnknownUnit};
use crate::vector::{Vector2, Vector3};

verus! {
/// A position with 2 coordinates, measured in space `U`.
#[derive(Debug, Hash)]
pub struct Point2<T, U> {
    pub x: T,
    pub y: T,
    pub _unit: PhantomData<U>,
}

impl<T: Copy, U> Copy for Point2<T, U> {
}

impl<T: Copy, U> Clone for Point2<T, U> {
    fn clone(&self) -> (r: Self)
        ensures
            r == *self,
    {
        *self
    }
}

impl<T: Scalar, U> View for Point2<T, U> {
    type V = Vec2;

    /// The integers the components stand for.
    open spec fn view(&self) -> Vec2 {
        Vec2 { x: self.x.val(), y: self.y.val() }
    }
}

impl<T: Scalar, U> PartialEqSpecImpl for Point2<T, U> {
    open spec fn obeys_eq_spec() -> bool {
        true
    }

    open spec fn eq_spec(&self, other: &Self) -> bool {
        self@ == other@
    }
}

impl<T: Scalar, U> PartialEq for Point2<T, U> {
    fn eq(&self, other: &Self) -> (r: bool) {
        self.x.eq(other.x) && self.y.eq(other.y)
    }
}

impl<T: Scalar, U> Eq for Point2<T, U> {
}

impl<T, U> Point2<T, U> {
    pub fn new(x: T, y: T) -> (r: Self)
        ensures
            r.x == x,
            r.y == y,
    {
        Self { x, y, _unit: PhantomData }
    }

    /// The value with every component equal to `v`.
    pub fn splat(v: T) -> (r: Self) where T: Copy
        ensures
            r.x == v,
            r.y == v,
    {
        Self::new(v, v)
    }

    /// The same components with the space forgotten.
    pub fn erase_unit(self) -> (r: Point2<T, UnknownUnit>)
        ensures
            r.x == self.x,
            r.y == self.y,
    {
        Point2::new(self.x, self.y)
    }

    pub fn to_array(self) -> (r: [T; 2])
        ensures
            r@ == seq![self.x, self.y],
    {
        [self.x, self.y]
    }

    pub fn to_tuple(self) -> (r: (T, T))
        ensures
            r == (self.x, self.y),
    {
        (self.x, self.y)
    }

    /// The component along `axis`.
    pub fn get(&self, axis: Axis2) -> (r: T) where T: Copy
        ensures
            r == (match axis {
                Axis2::X => self.x,
                Axis2::Y => self.y,
            }),
    {
        match axis {
            Axis2::X => self.x,
            Axis2::Y => self.y,
        }
    }

    /// Replaces the component along `axis`, leaving the others as they were.
    pub fn set(&mut self, axis: Axis2, value: T) where T: Copy
        ensures
            final(self).get_spec(axis) == value,
            forall|other: Axis2| other != axis ==> final(self).get_spec(other)
                == old(self).get_spec(other),
    {
        match axis {
            Axis2::X => {
                self.x = value;
            },
            Axis2::Y => {
                self.y = value;
            },
        }
    }

    /// The component along `axis`.
    pub open spec fn get_spec(&self, axis: Axis2) -> T {
        match axis {
            Axis2::X => self.x,
            Axis2::Y => self.y,
        }
    }

    /// The displacement from the origin to this point.
    pub fn to_vector(self) -> (r: Vector2<T, U>)
        ensures
            r.x == self.x,
            r.y == self.y,
    {
        Vector2::new(self.x, self.y)
    }

    /// The 3D point with the given third coordinate.
    pub fn extend(self, z: T) -> (r: Point3<T, U>)
        ensures
            r.x == self.x,
            r.y == self.y,
            r.z == z,
    {
        Point3::new(self.x, self.y, z)
    }

    /// Each component rounded to the nearest whole value.
    pub fn round(self) -> (r: Self) where T: Round
        ensures
            r == self.round_spec(),
    {
        Round::round(self)
    }

    /// Each component rounded up.
    pub fn ceil(self) -> (r: Self) where T: Ceil
        ensures
            r == self.ceil_spec(),
    {
        Ceil::ceil(self)
    }

    /// Each component rounded down.
    pub fn floor(self) -> (r: Self) where T: Floor
        ensures
            r == self.floor_spec(),
    {
        Floor::floor(self)
    }
}

impl<T: Scalar, U> Point2<T, U> {
    /// Values with the same view are the same value.
    pub proof fn lemma_view_injective(self, other: Self)
        requires
            self@ == other@,
        ensures
            self == other,
    {
        self.x.lemma_val_injective(other.x);
        self.y.lemma_val_injective(other.y);
    }

    /// The point whose coordinates are all zero.
    pub fn origin() -> (r: Self)
        ensures
            r@ == Vec2::zero(),
    {
        Self::new(T::zero(), T::zero())
    }

    /// The blend `(1 - t) * self + t * other`, componentwise.
    pub fn lerp(self, other: Self, t: T) -> (r: Self)
        requires
            lerp_fits::<T>(self@.x, other@.x, t.val()),
            lerp_fits::<T>(self@.y, other@.y, t.val()),
        ensures
            r@ == self@.lerp(other@, t.val()),
    {
        let one_minus_t = T::one().sub(t);
        Self::new(
            one_minus_t.mul(self.x).add(t.mul(other.x)),
            one_minus_t.mul(self.y).add(t.mul(other.y)),
        )
    }

    /// The same value over another scalar type, or nothing when a component
    /// is not representable there.
    pub fn try_cast<NewT: Scalar>(self) -> (r: Option<Point2<NewT, U>>)
        ensures
            r.is_some() <==> (castable::<NewT>(self@.x) && castable::<NewT>(self@.y)),
            r matches Some(c) ==> c@ == self@,
    {
        match (try_cast::<T, NewT>(self.x), try_cast::<T, NewT>(self.y)) {
            (Some(x), Some(y)) => Some(Point2::new(x, y)),
            _ => None,
        }
    }

    /// The same value over another scalar type, which must be able to
    /// represent every component.
    pub fn cast<NewT: Scalar>(self) -> (r: Point2<NewT, U>)
        requires
            castable::<NewT>(self@.x),
            castable::<NewT>(self@.y),
        ensures
            r@ == self@,
    {
        match self.try_cast() {
            Some(c) => c,
            None => {
                proof {
                    assert(false);
                }
                Point2::new(NewT::zero(), NewT::zero())
            },
        }
    }

    /// The same value with 32-bit coordinates, which must suffice.
    pub fn to_i32(self) -> (r: Point2<i32, U>)
        requires
            castable::<i32>(self@.x),
            castable::<i32>(self@.y),
        ensures
            r@ == self@,
    {
        self.cast()
    }

    /// The same value with 64-bit coordinates, which must suffice.
    pub fn to_i64(self) -> (r: Point2<i64, U>)
        requires
            castable::<i64>(self@.x),
            castable::<i64>(self@.y),
        ensures
            r@ == self@,
    {
        self.cast()
    }

    /// The componentwise minimum.
    pub fn min(self, other: Self) -> (r: Self)
        ensures
            r@ == self@.min(other@),
    {
        Self::new(min(self.x, other.x), min(self.y, other.y))
    }

    /// The componentwise maximum.
    pub fn max(self, other: Self) -> (r: Self)
        ensures
            r@ == self@.max(other@),
    {
        Self::new(max(self.x, other.x), max(self.y, other.y))
    }

    /// Each component raised to at least `min`'s, then lowered to at most `max`'s.
    pub fn clamp(self, min: Self, max: Self) -> (r: Self)
        ensures
            r@ == self@.max(min@).min(max@),
    {
        self.max(min).min(max)
    }
}

impl<T: Scalar, U> Default for Point2<T, U> {
    /// The value whose components are all zero.
    fn default() -> (r: Self)
        ensures
            r@ == Vec2::zero(),
    {
        Self::new(T::zero(), T::zero())
    }
}

impl<T: Scalar, U> Zero for Point2<T, U> {
    open spec fn is_zero(&self) -> bool {
        self@ == Vec2::zero()
    }

    fn zero() -> (r: Self) {
        Self::new(T::zero(), T::zero())
    }
}

impl<T: Round, U> Round for Point2<T, U> {
    open spec fn round_spec(self) -> Self {
        Point2 { x: self.x.round_spec(), y: self.y.round_spec(), _unit: self._unit }
    }

    fn round(self) -> (r: Self) {
        Point2 { x: self.x.round(), y: self.y.round(), _unit: PhantomData }
    }
}

impl<T: Ceil, U> Ceil for Point2<T, U> {
    open spec fn ceil_spec(self) -> Self {
        Point2 { x: self.x.ceil_spec(), y: self.y.ceil_spec(), _unit: self._unit }
    }

    fn ceil(self) -> (r: Self) {
        Point2 { x: self.x.ceil(), y: self.y.ceil(), _unit: PhantomData }
    }
}

impl<T: Floor, U> Floor for Point2<T, U> {
    open spec fn floor_spec(self) -> Self {
        Point2 { x: self.x.floor_spec(), y: self.y.floor_spec(), _unit: self._unit }
    }

    fn floor(self) -> (r: Self) {
        Point2 { x: self.x.floor(), y: self.y.floor(), _unit: PhantomData }
    }
}

impl<T: Scalar, U> NegSpecImpl for Point2<T, U> {
    open spec fn obeys_neg_spec() -> bool {
        true
    }

    open spec fn neg_req(self) -> bool {
        self@.neg().fits::<T>()
    }

    open spec fn neg_spec(self) -> Point2<T, U> {
        Point2 { x: T::of_int(-self.x.val()), y: T::of_int(-self.y.val()), _unit: PhantomData }
    }
}

impl<T: Scalar, U> Neg for Point2<T, U> {
    type Output = Point2<T, U>;

    fn neg(self) -> (r: Point2<T, U>)
        ensures
            r@ == self@.neg(),
    {
        let r = Point2::new(self.x.neg(), self.y.neg());
        proof {
            lemma_is_of_int(r.x);
            lemma_is_of_int(r.y);
        }
        r
    }
}

impl<T: Scalar, U> MulSpecImpl<T> for Point2<T, U> {
    open spec fn obeys_mul_spec() -> bool {
        true
    }

    open spec fn mul_req(self, rhs: T) -> bool {
        self@.scale(rhs.val()).fits::<T>()
    }

    open spec fn mul_spec(self, rhs: T) -> Point2<T, U> {
        Point2 {
            x: T::of_int(self.x.val() * rhs.val()),
            y: T::of_int(self.y.val() * rhs.val()),
            _unit: PhantomData,
        }
    }
}

impl<T: Scalar, U> Mul<T> for Point2<T, U> {
    type Output = Point2<T, U>;

    fn mul(self, rhs: T) -> (r: Point2<T, U>)
        ensures
            r@ == self@.scale(rhs.val()),
    {
        let r = Point2::new(self.x.mul(rhs), self.y.mul(rhs));
        proof {
            lemma_is_of_int(r.x);
            lemma_is_of_int(r.y);
        }
        r
    }
}

impl<T: Scalar, U> DivSpecImpl<T> for Point2<T, U> {
    open spec fn obeys_div_spec() -> bool {
        true
    }

    open spec fn div_req(self, rhs: T) -> bool {
        rhs.val() != 0 && self@.div(rhs.val()).fits::<T>()
    }

    open spec fn div_spec(self, rhs: T) -> Point2<T, U> {
        Point2 {
            x: T::of_int(trunc_div(self.x.val(), rhs.val())),
            y: T::of_int(trunc_div(self.y.val(), rhs.val())),
            _unit: PhantomData,
        }
    }
}

impl<T: Scalar, U> Div<T> for Point2<T, U> {
    type Output = Point2<T, U>;

    fn div(self, rhs: T) -> (r: Point2<T, U>)
        ensures
            r@ == self@.div(rhs.val()),
    {
        let r = Point2::new(self.x.div(rhs), self.y.div(rhs));
        proof {
            lemma_is_of_int(r.x);
            lemma_is_of_int(r.y);
        }
        r
    }
}

impl<T: Scalar, U> AddSpecImpl<Vector2<T, U>> for Point2<T, U> {
    open spec fn obeys_add_spec() -> bool {
        true
    }

    open spec fn add_req(self, rhs: Vector2<T, U>) -> bool {
        self@.add(rhs@).fits::<T>()
    }

    open spec fn add_spec(self, rhs: Vector2<T, U>) -> Point2<T, U> {
        Point2 {
            x: T::of_int(self.x.val() + rhs.x.val()),
            y: T::of_int(self.y.val() + rhs.y.val()),
            _unit: PhantomData,
        }
    }
}

impl<T: Scalar, U> Add<Vector2<T, U>> for Point2<T, U> {
    type Output = Point2<T, U>;

    fn add(self, rhs: Vector2<T, U>) -> (r: Point2<T, U>)
        ensures
            r@ == self@.add(rhs@),
    {
        let r = Point2::new(self.x.add(rhs.x), self.y.add(rhs.y));
        proof {
            lemma_is_of_int(r.x);
            lemma_is_of_int(r.y);
        }
        r
    }
}

impl<T: Scalar, U> SubSpecImpl<Vector2<T, U>> for Point2<T, U> {
    open spec fn obeys_sub_spec() -> bool {
        true
    }

    open spec fn sub_req(self, rhs: Vector2<T, U>) -> bool {
        self@.sub(rhs@).fits::<T>()
    }

    open spec fn sub_spec(self, rhs: Vector2<T, U>) -> Point2<T, U> {
        Point2 {
            x: T::of_int(self.x.val() - rhs.x.val()),
            y: T::of_int(self.y.val() - rhs.y.val()),
            _unit: PhantomData,
        }
    }
}

impl<T: Scalar, U> Sub<Vector2<T, U>> for Point2<T, U> {
    type Output = Point2<T, U>;

    fn sub(self, rhs: Vector2<T, U>) -> (r: Point2<T, U>)
        ensures
            r@ == self@.sub(rhs@),
    {
        let r = Point2::new(self.x.sub(rhs.x), self.y.sub(rhs.y));
        proof {
            lemma_is_of_int(r.x);
            lemma_is_of_int(r.y);
        }
        r
    }
}

impl<T: Scalar, U> SubSpecImpl<Point2<T, U>> for Point2<T, U> {
    open spec fn obeys_sub_spec() -> bool {
        true
    }

    open spec fn sub_req(self, rhs: Point2<T, U>) -> bool {
        self@.sub(rhs@).fits::<T>()
    }

    open spec fn sub_spec(self, rhs: Point2<T, U>) -> Vector2<T, U> {
        Vector2 {
            x: T::of_int(self.x.val() - rhs.x.val()),
            y: T::of_int(self.y.val() - rhs.y.val()),
            _unit: PhantomData,
        }
    }
}

impl<T: Scalar, U> Sub<Point2<T, U>> for Point2<T, U> {
    type Output = Vector2<T, U>;

    fn sub(self, rhs: Point2<T, U>) -> (r: Vector2<T, U>)
        ensures
            r@ == self@.sub(rhs@),
    {
        let r = Vector2::new(self.x.sub(rhs.x), self.y.sub(rhs.y));
        proof {
            lemma_is_of_int(r.x);
            lemma_is_of_int(r.y);
        }
        r
    }
}

impl<T: Scalar, U> AddSpecImpl<Size2<T, U>> for Point2<T, U> {
    open spec fn obeys_add_spec() -> bool {
        true
    }

    open spec fn add_req(self, rhs: Size2<T, U>) -> bool {
        self@.add(rhs@).fits::<T>()
    }

    open spec fn add_spec(self, rhs: Size2<T, U>) -> Point2<T, U> {
        Point2 {
            x: T::of_int(self.x.val() + rhs.x.val()),
            y: T::of_int(self.y.val() + rhs.y.val()),
            _unit: PhantomData,
        }
    }
}

impl<T: Scalar, U> Add<Size2<T, U>> for Point2<T, U> {
    type Output = Point2<T, U>;

    fn add(self, rhs: Size2<T, U>) -> (r: Point2<T, U>)
        ensures
            r@ == self@.add(rhs@),
    {
        let r = Point2::new(self.x.add(rhs.x), self.y.add(rhs.y));
        proof {
            lemma_is_of_int(r.x);
            lemma_is_of_int(r.y);
        }
        r
    }
}

impl<T: Scalar, U> SubSpecImpl<Size2<T, U>> for Point2<T, U> {
    open spec fn obeys_sub_spec() -> bool {
        true
    }

    open spec fn sub_req(self, rhs: Size2<T, U>) -> bool {
        self@.sub(rhs@).fits::<T>()
    }

    open spec fn sub_spec(self, rhs: Size2<T, U>) -> Point2<T, U> {
        Point2 {
            x: T::of_int(self.x.val() - rhs.x.val()),
            y: T::of_int(self.y.val() - rhs.y.val()),
            _unit: PhantomData,
        }
    }
}

impl<T: Scalar, U> Sub<Size2<T, U>> for Point2<T, U> {
    type Output = Point2<T, U>;

    fn sub(self, rhs: Size2<T, U>) -> (r: Point2<T, U>)
        ensures
            r@ == self@.sub(rhs@),
    {
        let r = Point2::new(self.x.sub(rhs.x), self.y.sub(rhs.y));
        proof {
            lemma_is_of_int(r.x);
            lemma_is_of_int(r.y);
        }
        r
    }
}

impl<T, U> vstd::std_specs::core::IndexSpecImpl<Axis2> for Point2<T, U> {
    open spec fn index_req(&self, index: &Axis2) -> bool {
        true
    }
}

/// The component along an axis.
impl<T, U> Index<Axis2> for Point2<T, U> {
    type Output = T;

    fn index(&self, axis: Axis2) -> (r: &T)
        ensures
            *r == self.get_spec(axis),
    {
        match axis {
            Axis2::X => &self.x,
            Axis2::Y => &self.y,
        }
    }
}

impl<T: Copy, U> FromSpecImpl<[T; 2]> for Point2<T, U> {
    open spec fn obeys_from_spec() -> bool {
        true
    }

    open spec fn from_spec(a: [T; 2]) -> Self {
        Point2 { x: a[0], y: a[1], _unit: PhantomData }
    }
}

impl<T: Copy, U> From<[T; 2]> for Point2<T, U> {
    fn from(a: [T; 2]) -> (r: Self) {
        Self::new(a[0], a[1])
    }
}

impl<T, U> FromSpecImpl<(T, T)> for Point2<T, U> {
    open spec fn obeys_from_spec() -> bool {
        true
    }

    open spec fn from_spec(t: (T, T)) -> Self {
        Point2 { x: t.0, y: t.1, _unit: PhantomData }
    }
}

impl<T, U> From<(T, T)> for Point2<T, U> {
    fn from(t: (T, T)) -> (r: Self) {
        Self::new(t.0, t.1)
    }
}

impl<T, U> FromSpecImpl<Point2<T, U>> for (T, T) {
    open spec fn obeys_from_spec() -> bool {
        true
    }

    open spec fn from_spec(v: Point2<T, U>) -> Self {
        (v.x, v.y)
    }
}

impl<T, U> From<Point2<T, U>> for (T, T) {
    fn from(v: Point2<T, U>) -> (r: Self) {
        (v.x, v.y)
    }
}

/// A position with 3 coordinates, measured in space `U`.
#[derive(Debug, Hash)]
pub struct Point3<T, U> {
    pub x: T,
    pub y: T,
    pub z: T,
    pub _unit: PhantomData<U>,
}

impl<T: Copy, U> Copy for Point3<T, U> {
}

impl<T: Copy, U> Clone for Point3<T, U> {
    fn clone(&self) -> (r: Self)
        ensures
            r == *self,
    {
        *self
    }
}

impl<T: Scalar, U> View for Point3<T, U> {
    type V = Vec3;

    /// The integers the components stand for.
    open spec fn view(&self) -> Vec3 {
        Vec3 { x: self.x.val(), y: self.y.val(), z: self.z.val() }
    }
}

impl<T: Scalar, U> PartialEqSpecImpl for Point3<T, U> {
    open spec fn obeys_eq_spec() -> bool {
        true
    }

    open spec fn eq_spec(&self, other: &Self) -> bool {
        self@ == other@
    }
}

impl<T: Scalar, U> PartialEq for Point3<T, U> {
    fn eq(&self, other: &Self) -> (r: bool) {
        self.x.eq(other.x) && self.y.eq(other.y) && self.z.eq(other.z)
    }
}

impl<T: Scalar, U> Eq for Point3<T, U> {
}

impl<T, U> Point3<T, U> {
    pub fn new(x: T, y: T, z: T) -> (r: Self)
        ensures
            r.x == x,
            r.y == y,
            r.z == z,
    {
        Self { x, y, z, _unit: PhantomData }
    }

    /// The value with every component equal to `v`.
    pub fn splat(v: T) -> (r: Self) where T: Copy
        ensures
            r.x == v,
            r.y == v,
            r.z == v,
    {
        Self::new(v, v, v)
    }

    /// The same components with the space forgotten.
    pub fn erase_unit(self) -> (r: Point3<T, UnknownUnit>)
        ensures
            r.x == self.x,
            r.y == self.y,
            r.z == self.z,
    {
        Point3::new(self.x, self.y, self.z)
    }

    pub fn to_array(self) -> (r: [T; 3])
        ensures
            r@ == seq![self.x, self.y, self.z],
    {
        [self.x, self.y, self.z]
    }

    pub fn to_tuple(self) -> (r: (T, T, T))
        ensures
            r == (self.x, self.y, self.z),
    {
        (self.x, self.y, self.z)
    }

    /// The component along `axis`.
    pub fn get(&self, axis: Axis3) -> (r: T) where T: Copy
        ensures
            r == (match axis {
                Axis3::X => self.x,
                Axis3::Y => self.y,
                Axis3::Z => self.z,
            }),
    {
        match axis {
            Axis3::X => self.x,
            Axis3::Y => self.y,
            Axis3::Z => self.z,
        }
    }

    /// Replaces the component along `axis`, leaving the others as they were.
    pub fn set(&mut self, axis: Axis3, value: T) where T: Copy
        ensures
            final(self).get_spec(axis) == value,
            forall|other: Axis3| other != axis ==> final(self).get_spec(other)
                == old(self).get_spec(other),
    {
        match axis {
            Axis3::X => {
                self.x = value;
            },
            Axis3::Y => {
                self.y = value;
            },
            Axis3::Z => {
                self.z = value;
            },
        }
    }

    /// The component along `axis`.
    pub open spec fn get_spec(&self, axis: Axis3) -> T {
        match axis {
            Axis3::X => self.x,
            Axis3::Y => self.y,
            Axis3::Z => self.z,
        }
    }

    /// The displacement from the origin to this point.
    pub fn to_vector(self) -> (r: Vector3<T, U>)
        ensures
            r.x == self.x,
            r.y == self.y,
            r.z == self.z,
    {
        Vector3::new(self.x, self.y, self.z)
    }

    /// Each component rounded to the nearest whole value.
    pub fn round(self) -> (r: Self) where T: Round
        ensures
            r == self.round_spec(),
    {
        Round::round(self)
    }

    /// Each component rounded up.
    pub fn ceil(self) -> (r: Self) where T: Ceil
        ensures
            r == self.ceil_spec(),
    {
        Ceil::ceil(self)
    }

    /// Each component rounded down.
    pub fn floor(self) -> (r: Self) where T: Floor
        ensures
            r == self.floor_spec(),
    {
        Floor::floor(self)
    }
}

impl<T: Scalar, U> Point3<T, U> {
    /// Values with the same view are the same value.
    pub proof fn lemma_view_injective(self, other: Self)
        requires
            self@ == other@,
        ensures
            self == other,
    {
        self.x.lemma_val_injective(other.x);
        self.y.lemma_val_injective(other.y);
        self.z.lemma_val_injective(other.z);
    }

    /// The point whose coordinates are all zero.
    pub fn origin() -> (r: Self)
        ensures
            r@ == Vec3::zero(),
    {
        Self::new(T::zero(), T::zero(), T::zero())
    }

    /// The blend `(1 - t) * self + t * other`, componentwise.
    pub fn lerp(self, other: Self, t: T) -> (r: Self)
        requires
            lerp_fits::<T>(self@.x, other@.x, t.val()),
            lerp_fits::<T>(self@.y, other@.y, t.val()),
            lerp_fits::<T>(self@.z, other@.z, t.val()),
        ensures
            r@ == self@.lerp(other@, t.val()),
    {
        let one_minus_t = T::one().sub(t);
        Self::new(
            one_minus_t.mul(self.x).add(t.mul(other.x)),
            one_minus_t.mul(self.y).add(t.mul(other.y)),
            one_minus_t.mul(self.z).add(t.mul(other.z)),
        )
    }

    /// The same value over another scalar type, or nothing when a component
    /// is not representable there.
    pub fn try_cast<NewT: Scalar>(self) -> (r: Option<Point3<NewT, U>>)
        ensures
            r.is_some(
                ) <==> (castable::<NewT>(self@.x)
                && castable::<NewT>(self@.y)
                && castable::<NewT>(self@.z)
            ),
            r matches Some(c) ==> c@ == self@,
    {
        match (try_cast::<T, NewT>(self.x), try_cast::<T, NewT>(self.y), try_cast::<T, NewT>(self.z)) {
            (Some(x), Some(y), Some(z)) => Some(Point3::new(x, y, z)),
            _ => None,
        }
    }

    /// The same value over another scalar type, which must be able to
    /// represent every component.
    pub fn cast<NewT: Scalar>(self) -> (r: Point3<NewT, U>)
        requires
            castable::<NewT>(self@.x),
            castable::<NewT>(self@.y),
            castable::<NewT>(self@.z),
        ensures
            r@ == self@,
    {
        match self.try_cast() {
            Some(c) => c,
            None => {
                proof {
                    assert(false);
                }
                Point3::new(NewT::zero(), NewT::zero(), NewT::zero())
            },
        }
    }

    /// The same value with 32-bit coordinates, which must suffice.
    pub fn to_i32(self) -> (r: Point3<i32, U>)
        requires
            castable::<i32>(self@.x),
            castable::<i32>(self@.y),
            castable::<i32>(self@.z),
        ensures
            r@ == self@,
    {
        self.cast()
    }

    /// The same value with 64-bit coordinates, which must suffice.
    pub fn to_i64(self) -> (r: Point3<i64, U>)
        requires
            castable::<i64>(self@.x),
            castable::<i64>(self@.y),
            castable::<i64>(self@.z),
        ensures
            r@ == self@,
    {
        self.cast()
    }

    /// The componentwise minimum.
    pub fn min(self, other: Self) -> (r: Self)
        ensures
            r@ == self@.min(other@),
    {
        Self::new(min(self.x, other.x), min(self.y, other.y), min(self.z, other.z))
    }

    /// The componentwise maximum.
    pub fn max(self, other: Self) -> (r: Self)
        ensures
            r@ == self@.max(other@),
    {
        Self::new(max(self.x, other.x), max(self.y, other.y), max(self.z, other.z))
    }

    /// Each component raised to at least `min`'s, then lowered to at most `max`'s.
    pub fn clamp(self, min: Self, max: Self) -> (r: Self)
        ensures
            r@ == self@.max(min@).min(max@),
    {
        self.max(min).min(max)
    }
}

impl<T: Scalar, U> Default for Point3<T, U> {
    /// The value whose components are all zero.
    fn default() -> (r: Self)
        ensures
            r@ == Vec3::zero(),
    {
        Self::new(T::zero(), T::zero(), T::zero())
    }
}

impl<T: Scalar, U> Zero for Point3<T, U> {
    open spec fn is_zero(&self) -> bool {
        self@ == Vec3::zero()
    }

    fn zero() -> (r: Self) {
        Self::new(T::zero(), T::zero(), T::zero())
    }
}

impl<T: Round, U> Round for Point3<T, U> {
    open spec fn round_spec(self) -> Self {
        Point3 {
            x: self.x.round_spec(),
            y: self.y.round_spec(),
            z: self.z.round_spec(),
            _unit: self._unit,
        }
    }

    fn round(self) -> (r: Self) {
        Point3 { x: self.x.round(), y: self.y.round(), z: self.z.round(), _unit: PhantomData }
    }
}

impl<T: Ceil, U> Ceil for Point3<T, U> {
    open spec fn ceil_spec(self) -> Self {
        Point3 {
            x: self.x.ceil_spec(),
            y: self.y.ceil_spec(),
            z: self.z.ceil_spec(),
            _unit: self._unit,
        }
    }

    fn ceil(self) -> (r: Self) {
        Point3 { x: self.x.ceil(), y: self.y.ceil(), z: self.z.ceil(), _unit: PhantomData }
    }
}

impl<T: Floor, U> Floor for Point3<T, U> {
    open spec fn floor_spec(self) -> Self {
        Point3 {
            x: self.x.floor_spec(),
            y: self.y.floor_spec(),
            z: self.z.floor_spec(),
            _unit: self._unit,
        }
    }

    fn floor(self) -> (r: Self) {
        Point3 { x: self.x.floor(), y: self.y.floor(), z: self.z.floor(), _unit: PhantomData }
    }
}

impl<T: Scalar, U> NegSpecImpl for Point3<T, U> {
    open spec fn obeys_neg_spec() -> bool {
        true
    }

    open spec fn neg_req(self) -> bool {
        self@.neg().fits::<T>()
    }

    open spec fn neg_spec(self) -> Point3<T, U> {
        Point3 {
            x: T::of_int(-self.x.val()),
            y: T::of_int(-self.y.val()),
            z: T::of_int(-self.z.val()),
            _unit: PhantomData,
        }
    }
}

impl<T: Scalar, U> Neg for Point3<T, U> {
    type Output = Point3<T, U>;

    fn neg(self) -> (r: Point3<T, U>)
        ensures
            r@ == self@.neg(),
    {
        let r = Point3::new(self.x.neg(), self.y.neg(), self.z.neg());
        proof {
            lemma_is_of_int(r.x);
            lemma_is_of_int(r.y);
            lemma_is_of_int(r.z);
        }
        r
    }
}

impl<T: Scalar, U> MulSpecImpl<T> for Point3<T, U> {
    open spec fn obeys_mul_spec() -> bool {
        true
    }

    open spec fn mul_req(self, rhs: T) -> bool {
        self@.scale(rhs.val()).fits::<T>()
    }

    open spec fn mul_spec(self, rhs: T) -> Point3<T, U> {
        Point3 {
            x: T::of_int(self.x.val() * rhs.val()),
            y: T::of_int(self.y.val() * rhs.val()),
            z: T::of_int(self.z.val() * rhs.val()),
            _unit: PhantomData,
        }
    }
}

impl<T: Scalar, U> Mul<T> for Point3<T, U> {
    type Output = Point3<T, U>;

    fn mul(self, rhs: T) -> (r: Point3<T, U>)
        ensures
            r@ == self@.scale(rhs.val()),
    {
        let r = Point3::new(self.x.mul(rhs), self.y.mul(rhs), self.z.mul(rhs));
        proof {
            lemma_is_of_int(r.x);
            lemma_is_of_int(r.y);
            lemma_is_of_int(r.z);
        }
        r
    }
}

impl<T: Scalar, U> DivSpecImpl<T> for Point3<T, U> {
    open spec fn obeys_div_spec() -> bool {
        true
    }

    open spec fn div_req(self, rhs: T) -> bool {
        rhs.val() != 0 && self@.div(rhs.val()).fits::<T>()
    }

    open spec fn div_spec(self, rhs: T) -> Point3<T, U> {
        Point3 {
            x: T::of_int(trunc_div(self.x.val(), rhs.val())),
            y: T::of_int(trunc_div(self.y.val(), rhs.val())),
            z: T::of_int(trunc_div(self.z.val(), rhs.val())),
            _unit: PhantomData,
        }
    }
}

impl<T: Scalar, U> Div<T> for Point3<T, U> {
    type Output = Point3<T, U>;

    fn div(self, rhs: T) -> (r: Point3<T, U>)
        ensures
            r@ == self@.div(rhs.val()),
    {
        let r = Point3::new(self.x.div(rhs), self.y.div(rhs), self.z.div(rhs));
        proof {
            lemma_is_of_int(r.x);
            lemma_is_of_int(r.y);
            lemma_is_of_int(r.z);
        }
        r
    }
}

impl<T: Scalar, U> AddSpecImpl<Vector3<T, U>> for Point3<T, U> {
    open spec fn obeys_add_spec() -> bool {
        true
    }

    open spec fn add_req(self, rhs: Vector3<T, U>) -> bool {
        self@.add(rhs@).fits::<T>()
    }

    open spec fn add_spec(self, rhs: Vector3<T, U>) -> Point3<T, U> {
        Point3 {
            x: T::of_int(self.x.val() + rhs.x.val()),
            y: T::of_int(self.y.val() + rhs.y.val()),
            z: T::of_int(self.z.val() + rhs.z.val()),
            _unit: PhantomData,
        }
    }
}

impl<T: Scalar, U> Add<Vector3<T, U>> for Point3<T, U> {
    type Output = Point3<T, U>;

    fn add(self, rhs: Vector3<T, U>) -> (r: Point3<T, U>)
        ensures
            r@ == self@.add(rhs@),
    {
        let r = Point3::new(self.x.add(rhs.x), self.y.add(rhs.y), self.z.add(rhs.z));
        proof {
            lemma_is_of_int(r.x);
            lemma_is_of_int(r.y);
            lemma_is_of_int(r.z);
        }
        r
    }
}

impl<T: Scalar, U> SubSpecImpl<Vector3<T, U>> for Point3<T, U> {
    open spec fn obeys_sub_spec() -> bool {
        true
    }

    open spec fn sub_req(self, rhs: Vector3<T, U>) -> bool {
        self@.sub(rhs@).fits::<T>()
    }

    open spec fn sub_spec(self, rhs: Vector3<T, U>) -> Point3<T, U> {
        Point3 {
            x: T::of_int(self.x.val() - rhs.x.val()),
            y: T::of_int(self.y.val() - rhs.y.val()),
            z: T::of_int(self.z.val() - rhs.z.val()),
            _unit: PhantomData,
        }
    }
}

impl<T: Scalar, U> Sub<Vector3<T, U>> for Point3<T, U> {
    type Output = Point3<T, U>;

    fn sub(self, rhs: Vector3<T, U>) -> (r: Point3<T, U>)
        ensures
            r@ == self@.sub(rhs@),
    {
        let r = Point3::new(self.x.sub(rhs.x), self.y.sub(rhs.y), self.z.sub(rhs.z));
        proof {
            lemma_is_of_int(r.x);
            lemma_is_of_int(r.y);
            lemma_is_of_int(r.z);
        }
        r
    }
}

impl<T: Scalar, U> SubSpecImpl<Point3<T, U>> for Point3<T, U> {
    open spec fn obeys_sub_spec() -> bool {
        true
    }

    open spec fn sub_req(self, rhs: Point3<T, U>) -> bool {
        self@.sub(rhs@).fits::<T>()
    }

    open spec fn sub_spec(self, rhs: Point3<T, U>) -> Vector3<T, U> {
        Vector3 {
            x: T::of_int(self.x.val() - rhs.x.val()),
            y: T::of_int(self.y.val() - rhs.y.val()),
            z: T::of_int(self.z.val() - rhs.z.val()),
            _unit: PhantomData,
        }
    }
}

impl<T: Scalar, U> Sub<Point3<T, U>> for Point3<T, U> {
    type Output = Vector3<T, U>;

    fn sub(self, rhs: Point3<T, U>) -> (r: Vector3<T, U>)
        ensures
            r@ == self@.sub(rhs@),
    {
        let r = Vector3::new(self.x.sub(rhs.x), self.y.sub(rhs.y), self.z.sub(rhs.z));
        proof {
            lemma_is_of_int(r.x);
            lemma_is_of_int(r.y);
            lemma_is_of_int(r.z);
        }
        r
    }
}

impl<T: Scalar, U> AddSpecImpl<Size3<T, U>> for Point3<T, U> {
    open spec fn obeys_add_spec() -> bool {
        true
    }

    open spec fn add_req(self, rhs: Size3<T, U>) -> bool {
        self@.add(rhs@).fits::<T>()
    }

    open spec fn add_spec(self, rhs: Size3<T, U>) -> Point3<T, U> {
        Point3 {
            x: T::of_int(self.x.val() + rhs.x.val()),
            y: T::of_int(self.y.val() + rhs.y.val()),
            z: T::of_int(self.z.val() + rhs.z.val()),
            _unit: PhantomData,
        }
    }
}

impl<T: Scalar, U> Add<Size3<T, U>> for Point3<T, U> {
    type Output = Point3<T, U>;

    fn add(self, rhs: Size3<T, U>) -> (r: Point3<T, U>)
        ensures
            r@ == self@.add(rhs@),
    {
        let r = Point3::new(self.x.add(rhs.x), self.y.add(rhs.y), self.z.add(rhs.z));
        proof {
            lemma_is_of_int(r.x);
            lemma_is_of_int(r.y);
            lemma_is_of_int(r.z);
        }
        r
    }
}

impl<T: Scalar, U> SubSpecImpl<Size3<T, U>> for Point3<T, U> {
    open spec fn obeys_sub_spec() -> bool {
        true
    }

    open spec fn sub_req(self, rhs: Size3<T, U>) -> bool {
        self@.sub(rhs@).fits::<T>()
    }

    open spec fn sub_spec(self, rhs: Size3<T, U>) -> Point3<T, U> {
        Point3 {
            x: T::of_int(self.x.val() - rhs.x.val()),
            y: T::of_int(self.y.val() - rhs.y.val()),
            z: T::of_int(self.z.val() - rhs.z.val()),
            _unit: PhantomData,
        }
    }
}

impl<T: Scalar, U> Sub<Size3<T, U>> for Point3<T, U> {
    type Output = Point3<T, U>;

    fn sub(self, rhs: Size3<T, U>) -> (r: Point3<T, U>)
        ensures
            r@ == self@.sub(rhs@),
    {
        let r = Point3::new(self.x.sub(rhs.x), self.y.sub(rhs.y), self.z.sub(rhs.z));
        proof {
            lemma_is_of_int(r.x);
            lemma_is_of_int(r.y);
            lemma_is_of_int(r.z);
        }
        r
    }
}

impl<T, U> vstd::std_specs::core::IndexSpecImpl<Axis3> for Point3<T, U> {
    open spec fn index_req(&self, index: &Axis3) -> bool {
        true
    }
}

/// The component along an axis.
impl<T, U> Index<Axis3> for Point3<T, U> {
    type Output = T;

    fn index(&self, axis: Axis3) -> (r: &T)
        ensures
            *r == self.get_spec(axis),
    {
        match axis {
            Axis3::X => &self.x,
            Axis3::Y => &self.y,
            Axis3::Z => &self.z,
        }
    }
}

impl<T: Copy, U> FromSpecImpl<[T; 3]> for Point3<T, U> {
    open spec fn obeys_from_spec() -> bool {
        true
    }

    open spec fn from_spec(a: [T; 3]) -> Self {
        Point3 { x: a[0], y: a[1], z: a[2], _unit: PhantomData }
    }
}

impl<T: Copy, U> From<[T; 3]> for Point3<T, U> {
    fn from(a: [T; 3]) -> (r: Self) {
        Self::new(a[0], a[1], a[2])
    }
}

impl<T, U> FromSpecImpl<(T, T, T)> for Point3<T, U> {
    open spec fn obeys_from_spec() -> bool {
        true
    }

    open spec fn from_spec(t: (T, T, T)) -> Self {
        Point3 { x: t.0, y: t.1, z: t.2, _unit: PhantomData }
    }
}

impl<T, U> From<(T, T, T)> for Point3<T, U> {
    fn from(t: (T, T, T)) -> (r: Self) {
        Self::new(t.0, t.1, t.2)
    }
}

impl<T, U> FromSpecImpl<Point3<T, U>> for (T, T, T) {
    open spec fn obeys_from_spec() -> bool {
        true
    }

    open spec fn from_spec(v: Point3<T, U>) -> Self {
        (v.x, v.y, v.z)
    }
}

impl<T, U> From<Point3<T, U>> for (T, T, T) {
    fn from(v: Point3<T, U>) -> (r: Self) {
        (v.x, v.y, v.z)
    }
}

} // verus!

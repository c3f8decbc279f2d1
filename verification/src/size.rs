//! Sizes: extents along each axis, tagged with the space they are measured in.
use vstd::prelude::*;
use vstd::std_specs::cmp::PartialEqSpecImpl;
use vstd::std_specs::convert::FromSpecImpl;
use vstd::std_specs::ops::{AddSpecImpl, DivSpecImpl, MulSpecImpl, NegSpecImpl, SubSpecImpl};
use std::marker::PhantomData;
use std::ops::{Add, Div, Index, Mul, Neg, Sub};
use crate::arith::{prod3, prod3_fits};
use crate::mask::{Mask2, Mask3};
use crate::model::{Vec2, Vec3};
use crate::num::{
    castable, lemma_is_of_int, max, min, trunc_div, try_cast, Ceil, Floor, Round, Scalar, Zero,
};
use crate::space::{Axis2, Axis3, Normal, UnknownUnit};
use crate::units::Length;
use crate::vector::{Vector2, Vector3};

verus! {
/// Extents along 2 axes, measured in space `U`.
#[derive(Debug, Hash)]
pub struct Size2<T, U> {
    pub x: T,
    pub y: T,
    pub _unit: PhantomData<U>,
}

impl<T: Copy, U> Copy for Size2<T, U> {
}

impl<T: Copy, U> Clone for Size2<T, U> {
    fn clone(&self) -> (r: Self)
        ensures
            r == *self,
    {
        *self
    }
}

impl<T: Scalar, U> View for Size2<T, U> {
    type V = Vec2;

    /// The integers the components stand for.
    open spec fn view(&self) -> Vec2 {
        Vec2 { x: self.x.val(), y: self.y.val() }
    }
}

impl<T: Scalar, U> PartialEqSpecImpl for Size2<T, U> {
    open spec fn obeys_eq_spec() -> bool {
        true
    }

    open spec fn eq_spec(&self, other: &Self) -> bool {
        self@ == other@
    }
}

impl<T: Scalar, U> PartialEq for Size2<T, U> {
    fn eq(&self, other: &Self) -> (r: bool) {
        self.x.eq(other.x) && self.y.eq(other.y)
    }
}

impl<T: Scalar, U> Eq for Size2<T, U> {
}

impl<T, U> Size2<T, U> {
    pub fn new(x: T, y: T) -> (r: Self)
        ensures
            r.x == x,
            r.y == y,
    {
        Self { x, y, _unit: PhantomData }
    }

    /// The value with every component equal to `v`.
    pub fn splat(v: T) -> (r: Self) where T: Copy
        ensures
            r.x == v,
            r.y == v,
    {
        Self::new(v, v)
    }

    /// The same components with the space forgotten.
    pub fn erase_unit(self) -> (r: Size2<T, UnknownUnit>)
        ensures
            r.x == self.x,
            r.y == self.y,
    {
        Size2::new(self.x, self.y)
    }

    pub fn to_array(self) -> (r: [T; 2])
        ensures
            r@ == seq![self.x, self.y],
    {
        [self.x, self.y]
    }

    pub fn to_tuple(self) -> (r: (T, T))
        ensures
            r == (self.x, self.y),
    {
        (self.x, self.y)
    }

    /// The component along `axis`.
    pub fn get(&self, axis: Axis2) -> (r: T) where T: Copy
        ensures
            r == (match axis {
                Axis2::X => self.x,
                Axis2::Y => self.y,
            }),
    {
        match axis {
            Axis2::X => self.x,
            Axis2::Y => self.y,
        }
    }

    /// Replaces the component along `axis`, leaving the others as they were.
    pub fn set(&mut self, axis: Axis2, value: T) where T: Copy
        ensures
            final(self).get_spec(axis) == value,
            forall|other: Axis2| other != axis ==> final(self).get_spec(other)
                == old(self).get_spec(other),
    {
        match axis {
            Axis2::X => {
                self.x = value;
            },
            Axis2::Y => {
                self.y = value;
            },
        }
    }

    /// The component along `axis`.
    pub open spec fn get_spec(&self, axis: Axis2) -> T {
        match axis {
            Axis2::X => self.x,
            Axis2::Y => self.y,
        }
    }

    /// The same components read as a displacement.
    pub fn to_vector(self) -> (r: Vector2<T, U>)
        ensures
            r.x == self.x,
            r.y == self.y,
    {
        Vector2::new(self.x, self.y)
    }

    /// The same components read as a covector.
    pub fn to_normal(self) -> (r: Vector2<T, Normal<U>>)
        ensures
            r.x == self.x,
            r.y == self.y,
    {
        Vector2::new(self.x, self.y)
    }

    /// The size with the given extents.
    pub fn from_lengths(x: Length<T, U>, y: Length<T, U>) -> (r: Self)
        ensures
            r.x == x.0,
            r.y == y.0,
    {
        Self::new(x.0, y.0)
    }

    /// Each component rounded to the nearest whole value.
    pub fn round(self) -> (r: Self) where T: Round
        ensures
            r == self.round_spec(),
    {
        Round::round(self)
    }

    /// Each component rounded up.
    pub fn ceil(self) -> (r: Self) where T: Ceil
        ensures
            r == self.ceil_spec(),
    {
        Ceil::ceil(self)
    }

    /// Each component rounded down.
    pub fn floor(self) -> (r: Self) where T: Floor
        ensures
            r == self.floor_spec(),
    {
        Floor::floor(self)
    }
}

impl<T: Scalar, U> Size2<T, U> {
    /// Values with the same view are the same value.
    pub proof fn lemma_view_injective(self, other: Self)
        requires
            self@ == other@,
        ensures
            self == other,
    {
        self.x.lemma_val_injective(other.x);
        self.y.lemma_val_injective(other.y);
    }

    /// The product of the two extents.
    pub fn area(self) -> (r: T)
        requires
            T::fits(self@.x * self@.y),
        ensures
            r.val() == self@.x * self@.y,
    {
        self.x.mul(self.y)
    }

    /// The blend `self * (1 - t) + other * t`, componentwise.
    pub fn lerp(self, other: Self, t: T) -> (r: Self)
        requires
            T::fits(1 - t.val()),
            self@.scale(1 - t.val()).fits::<T>(),
            other@.scale(t.val()).fits::<T>(),
            self@.scale(1 - t.val()).add(other@.scale(t.val())).fits::<T>(),
        ensures
            r@ == self@.scale(1 - t.val()).add(other@.scale(t.val())),
    {
        let one_minus_t = T::one().sub(t);
        self * one_minus_t + other * t
    }

    /// The componentwise absolute value.
    pub fn abs(self) -> (r: Self)
        requires
            self@.abs().fits::<T>(),
        ensures
            r@ == self@.abs(),
    {
        Self::new(self.x.abs(), self.y.abs())
    }

    /// The same value over another scalar type, or nothing when a component
    /// is not representable there.
    pub fn try_cast<NewT: Scalar>(self) -> (r: Option<Size2<NewT, U>>)
        ensures
            r.is_some() <==> (castable::<NewT>(self@.x) && castable::<NewT>(self@.y)),
            r matches Some(c) ==> c@ == self@,
    {
        match (try_cast::<T, NewT>(self.x), try_cast::<T, NewT>(self.y)) {
            (Some(x), Some(y)) => Some(Size2::new(x, y)),
            _ => None,
        }
    }

    /// The same value over another scalar type, which must be able to
    /// represent every component.
    pub fn cast<NewT: Scalar>(self) -> (r: Size2<NewT, U>)
        requires
            castable::<NewT>(self@.x),
            castable::<NewT>(self@.y),
        ensures
            r@ == self@,
    {
        match self.try_cast() {
            Some(c) => c,
            None => {
                proof {
                    assert(false);
                }
                Size2::new(NewT::zero(), NewT::zero())
            },
        }
    }

    /// The same value with 32-bit coordinates, which must suffice.
    pub fn to_i32(self) -> (r: Size2<i32, U>)
        requires
            castable::<i32>(self@.x),
            castable::<i32>(self@.y),
        ensures
            r@ == self@,
    {
        self.cast()
    }

    /// The same value with 64-bit coordinates, which must suffice.
    pub fn to_i64(self) -> (r: Size2<i64, U>)
        requires
            castable::<i64>(self@.x),
            castable::<i64>(self@.y),
        ensures
            r@ == self@,
    {
        self.cast()
    }

    /// Whether every extent is above zero.
    pub fn is_positive(self) -> (r: bool)
        ensures
            r == (self@.x > 0 && self@.y > 0),
    {
        self.x.is_positive() && self.y.is_positive()
    }

    /// The componentwise minimum.
    pub fn min(self, other: Self) -> (r: Self)
        ensures
            r@ == self@.min(other@),
    {
        Self::new(min(self.x, other.x), min(self.y, other.y))
    }

    /// The componentwise maximum.
    pub fn max(self, other: Self) -> (r: Self)
        ensures
            r@ == self@.max(other@),
    {
        Self::new(max(self.x, other.x), max(self.y, other.y))
    }

    /// Each component lowered to at most `max`'s, then raised to at least `min`'s.
    pub fn clamp(self, min: Self, max: Self) -> (r: Self)
        ensures
            r@ == self@.min(max@).max(min@),
    {
        self.min(max).max(min)
    }

    /// Whether every extent is at least `other`'s.
    pub fn contains(self, other: Self) -> (r: bool)
        ensures
            r == (self@.x >= other@.x && self@.y >= other@.y),
    {
        self.cmp_ge(other).all()
    }

    /// Whether some extent is zero or negative.
    pub fn is_empty(self) -> (r: bool)
        ensures
            r == !(self@.x > 0 && self@.y > 0),
    {
        let zero = T::zero();
        !(self.x.gt(zero) && self.y.gt(zero))
    }

    /// Which components are equal.
    pub fn cmp_eq(self, other: Self) -> (r: Mask2)
        ensures
            r == (Mask2 { x: self@.x == other@.x, y: self@.y == other@.y }),
    {
        Mask2 { x: self.x.eq(other.x), y: self.y.eq(other.y) }
    }

    /// Which components differ.
    pub fn cmp_ne(self, other: Self) -> (r: Mask2)
        ensures
            r == (Mask2 { x: self@.x != other@.x, y: self@.y != other@.y }),
    {
        Mask2 { x: self.x.ne(other.x), y: self.y.ne(other.y) }
    }

    /// Which components are smaller than `other`'s.
    pub fn cmp_lt(self, other: Self) -> (r: Mask2)
        ensures
            r == (Mask2 { x: self@.x < other@.x, y: self@.y < other@.y }),
    {
        Mask2 { x: self.x.lt(other.x), y: self.y.lt(other.y) }
    }

    /// Which components are at most `other`'s.
    pub fn cmp_le(self, other: Self) -> (r: Mask2)
        ensures
            r == (Mask2 { x: self@.x <= other@.x, y: self@.y <= other@.y }),
    {
        Mask2 { x: self.x.le(other.x), y: self.y.le(other.y) }
    }

    /// Which components are greater than `other`'s.
    pub fn cmp_gt(self, other: Self) -> (r: Mask2)
        ensures
            r == (Mask2 { x: self@.x > other@.x, y: self@.y > other@.y }),
    {
        Mask2 { x: self.x.gt(other.x), y: self.y.gt(other.y) }
    }

    /// Which components are at least `other`'s.
    pub fn cmp_ge(self, other: Self) -> (r: Mask2)
        ensures
            r == (Mask2 { x: self@.x >= other@.x, y: self@.y >= other@.y }),
    {
        Mask2 { x: self.x.ge(other.x), y: self.y.ge(other.y) }
    }
}

impl<T: Scalar, U> Default for Size2<T, U> {
    /// The value whose components are all zero.
    fn default() -> (r: Self)
        ensures
            r@ == Vec2::zero(),
    {
        Self::new(T::zero(), T::zero())
    }
}

impl<T: Scalar, U> Zero for Size2<T, U> {
    open spec fn is_zero(&self) -> bool {
        self@ == Vec2::zero()
    }

    fn zero() -> (r: Self) {
        Self::new(T::zero(), T::zero())
    }
}

impl<T: Round, U> Round for Size2<T, U> {
    open spec fn round_spec(self) -> Self {
        Size2 { x: self.x.round_spec(), y: self.y.round_spec(), _unit: self._unit }
    }

    fn round(self) -> (r: Self) {
        Size2 { x: self.x.round(), y: self.y.round(), _unit: PhantomData }
    }
}

impl<T: Ceil, U> Ceil for Size2<T, U> {
    open spec fn ceil_spec(self) -> Self {
        Size2 { x: self.x.ceil_spec(), y: self.y.ceil_spec(), _unit: self._unit }
    }

    fn ceil(self) -> (r: Self) {
        Size2 { x: self.x.ceil(), y: self.y.ceil(), _unit: PhantomData }
    }
}

impl<T: Floor, U> Floor for Size2<T, U> {
    open spec fn floor_spec(self) -> Self {
        Size2 { x: self.x.floor_spec(), y: self.y.floor_spec(), _unit: self._unit }
    }

    fn floor(self) -> (r: Self) {
        Size2 { x: self.x.floor(), y: self.y.floor(), _unit: PhantomData }
    }
}

impl<T: Scalar, U> NegSpecImpl for Size2<T, U> {
    open spec fn obeys_neg_spec() -> bool {
        true
    }

    open spec fn neg_req(self) -> bool {
        self@.neg().fits::<T>()
    }

    open spec fn neg_spec(self) -> Size2<T, U> {
        Size2 { x: T::of_int(-self.x.val()), y: T::of_int(-self.y.val()), _unit: PhantomData }
    }
}

impl<T: Scalar, U> Neg for Size2<T, U> {
    type Output = Size2<T, U>;

    fn neg(self) -> (r: Size2<T, U>)
        ensures
            r@ == self@.neg(),
    {
        let r = Size2::new(self.x.neg(), self.y.neg());
        proof {
            lemma_is_of_int(r.x);
            lemma_is_of_int(r.y);
        }
        r
    }
}

impl<T: Scalar, U> MulSpecImpl<T> for Size2<T, U> {
    open spec fn obeys_mul_spec() -> bool {
        true
    }

    open spec fn mul_req(self, rhs: T) -> bool {
        self@.scale(rhs.val()).fits::<T>()
    }

    open spec fn mul_spec(self, rhs: T) -> Size2<T, U> {
        Size2 {
            x: T::of_int(self.x.val() * rhs.val()),
            y: T::of_int(self.y.val() * rhs.val()),
            _unit: PhantomData,
        }
    }
}

impl<T: Scalar, U> Mul<T> for Size2<T, U> {
    type Output = Size2<T, U>;

    fn mul(self, rhs: T) -> (r: Size2<T, U>)
        ensures
            r@ == self@.scale(rhs.val()),
    {
        let r = Size2::new(self.x.mul(rhs), self.y.mul(rhs));
        proof {
            lemma_is_of_int(r.x);
            lemma_is_of_int(r.y);
        }
        r
    }
}

impl<T: Scalar, U> DivSpecImpl<T> for Size2<T, U> {
    open spec fn obeys_div_spec() -> bool {
        true
    }

    open spec fn div_req(self, rhs: T) -> bool {
        rhs.val() != 0 && self@.div(rhs.val()).fits::<T>()
    }

    open spec fn div_spec(self, rhs: T) -> Size2<T, U> {
        Size2 {
            x: T::of_int(trunc_div(self.x.val(), rhs.val())),
            y: T::of_int(trunc_div(self.y.val(), rhs.val())),
            _unit: PhantomData,
        }
    }
}

impl<T: Scalar, U> Div<T> for Size2<T, U> {
    type Output = Size2<T, U>;

    fn div(self, rhs: T) -> (r: Size2<T, U>)
        ensures
            r@ == self@.div(rhs.val()),
    {
        let r = Size2::new(self.x.div(rhs), self.y.div(rhs));
        proof {
            lemma_is_of_int(r.x);
            lemma_is_of_int(r.y);
        }
        r
    }
}

impl<T: Scalar, U> AddSpecImpl<Size2<T, U>> for Size2<T, U> {
    open spec fn obeys_add_spec() -> bool {
        true
    }

    open spec fn add_req(self, rhs: Size2<T, U>) -> bool {
        self@.add(rhs@).fits::<T>()
    }

    open spec fn add_spec(self, rhs: Size2<T, U>) -> Size2<T, U> {
        Size2 {
            x: T::of_int(self.x.val() + rhs.x.val()),
            y: T::of_int(self.y.val() + rhs.y.val()),
            _unit: PhantomData,
        }
    }
}

impl<T: Scalar, U> Add<Size2<T, U>> for Size2<T, U> {
    type Output = Size2<T, U>;

    fn add(self, rhs: Size2<T, U>) -> (r: Size2<T, U>)
        ensures
            r@ == self@.add(rhs@),
    {
        let r = Size2::new(self.x.add(rhs.x), self.y.add(rhs.y));
        proof {
            lemma_is_of_int(r.x);
            lemma_is_of_int(r.y);
        }
        r
    }
}

impl<T: Scalar, U> SubSpecImpl<Size2<T, U>> for Size2<T, U> {
    open spec fn obeys_sub_spec() -> bool {
        true
    }

    open spec fn sub_req(self, rhs: Size2<T, U>) -> bool {
        self@.sub(rhs@).fits::<T>()
    }

    open spec fn sub_spec(self, rhs: Size2<T, U>) -> Size2<T, U> {
        Size2 {
            x: T::of_int(self.x.val() - rhs.x.val()),
            y: T::of_int(self.y.val() - rhs.y.val()),
            _unit: PhantomData,
        }
    }
}

impl<T: Scalar, U> Sub<Size2<T, U>> for Size2<T, U> {
    type Output = Size2<T, U>;

    fn sub(self, rhs: Size2<T, U>) -> (r: Size2<T, U>)
        ensures
            r@ == self@.sub(rhs@),
    {
        let r = Size2::new(self.x.sub(rhs.x), self.y.sub(rhs.y));
        proof {
            lemma_is_of_int(r.x);
            lemma_is_of_int(r.y);
        }
        r
    }
}

impl<T, U> vstd::std_specs::core::IndexSpecImpl<Axis2> for Size2<T, U> {
    open spec fn index_req(&self, index: &Axis2) -> bool {
        true
    }
}

/// The component along an axis.
impl<T, U> Index<Axis2> for Size2<T, U> {
    type Output = T;

    fn index(&self, axis: Axis2) -> (r: &T)
        ensures
            *r == self.get_spec(axis),
    {
        match axis {
            Axis2::X => &self.x,
            Axis2::Y => &self.y,
        }
    }
}

impl<T: Copy, U> FromSpecImpl<[T; 2]> for Size2<T, U> {
    open spec fn obeys_from_spec() -> bool {
        true
    }

    open spec fn from_spec(a: [T; 2]) -> Self {
        Size2 { x: a[0], y: a[1], _unit: PhantomData }
    }
}

impl<T: Copy, U> From<[T; 2]> for Size2<T, U> {
    fn from(a: [T; 2]) -> (r: Self) {
        Self::new(a[0], a[1])
    }
}

impl<T, U> FromSpecImpl<(T, T)> for Size2<T, U> {
    open spec fn obeys_from_spec() -> bool {
        true
    }

    open spec fn from_spec(t: (T, T)) -> Self {
        Size2 { x: t.0, y: t.1, _unit: PhantomData }
    }
}

impl<T, U> From<(T, T)> for Size2<T, U> {
    fn from(t: (T, T)) -> (r: Self) {
        Self::new(t.0, t.1)
    }
}

impl<T, U> FromSpecImpl<Size2<T, U>> for (T, T) {
    open spec fn obeys_from_spec() -> bool {
        true
    }

    open spec fn from_spec(v: Size2<T, U>) -> Self {
        (v.x, v.y)
    }
}

impl<T, U> From<Size2<T, U>> for (T, T) {
    fn from(v: Size2<T, U>) -> (r: Self) {
        (v.x, v.y)
    }
}

impl<T, U> FromSpecImpl<Vector2<T, U>> for Size2<T, U> {
    open spec fn obeys_from_spec() -> bool {
        true
    }

    open spec fn from_spec(v: Vector2<T, U>) -> Self {
        Size2 { x: v.x, y: v.y, _unit: PhantomData }
    }
}

/// The displacement read as extents.
impl<T, U> From<Vector2<T, U>> for Size2<T, U> {
    fn from(v: Vector2<T, U>) -> (r: Self) {
        Self::new(v.x, v.y)
    }
}

/// Extents along 3 axes, measured in space `U`.
#[derive(Debug, Hash)]
pub struct Size3<T, U> {
    pub x: T,
    pub y: T,
    pub z: T,
    pub _unit: PhantomData<U>,
}

impl<T: Copy, U> Copy for Size3<T, U> {
}

impl<T: Copy, U> Clone for Size3<T, U> {
    fn clone(&self) -> (r: Self)
        ensures
            r == *self,
    {
        *self
    }
}

impl<T: Scalar, U> View for Size3<T, U> {
    type V = Vec3;

    /// The integers the components stand for.
    open spec fn view(&self) -> Vec3 {
        Vec3 { x: self.x.val(), y: self.y.val(), z: self.z.val() }
    }
}

impl<T: Scalar, U> PartialEqSpecImpl for Size3<T, U> {
    open spec fn obeys_eq_spec() -> bool {
        true
    }

    open spec fn eq_spec(&self, other: &Self) -> bool {
        self@ == other@
    }
}

impl<T: Scalar, U> PartialEq for Size3<T, U> {
    fn eq(&self, other: &Self) -> (r: bool) {
        self.x.eq(other.x) && self.y.eq(other.y) && self.z.eq(other.z)
    }
}

impl<T: Scalar, U> Eq for Size3<T, U> {
}

impl<T, U> Size3<T, U> {
    pub fn new(x: T, y: T, z: T) -> (r: Self)
        ensures
            r.x == x,
            r.y == y,
            r.z == z,
    {
        Self { x, y, z, _unit: PhantomData }
    }

    /// The value with every component equal to `v`.
    pub fn splat(v: T) -> (r: Self) where T: Copy
        ensures
            r.x == v,
            r.y == v,
            r.z == v,
    {
        Self::new(v, v, v)
    }

    /// The same components with the space forgotten.
    pub fn erase_unit(self) -> (r: Size3<T, UnknownUnit>)
        ensures
            r.x == self.x,
            r.y == self.y,
            r.z == self.z,
    {
        Size3::new(self.x, self.y, self.z)
    }

    pub fn to_array(self) -> (r: [T; 3])
        ensures
            r@ == seq![self.x, self.y, self.z],
    {
        [self.x, self.y, self.z]
    }

    pub fn to_tuple(self) -> (r: (T, T, T))
        ensures
            r == (self.x, self.y, self.z),
    {
        (self.x, self.y, self.z)
    }

    /// The component along `axis`.
    pub fn get(&self, axis: Axis3) -> (r: T) where T: Copy
        ensures
            r == (match axis {
                Axis3::X => self.x,
                Axis3::Y => self.y,
                Axis3::Z => self.z,
            }),
    {
        match axis {
            Axis3::X => self.x,
            Axis3::Y => self.y,
            Axis3::Z => self.z,
        }
    }

    /// Replaces the component along `axis`, leaving the others as they were.
    pub fn set(&mut self, axis: Axis3, value: T) where T: Copy
        ensures
            final(self).get_spec(axis) == value,
            forall|other: Axis3| other != axis ==> final(self).get_spec(other)
                == old(self).get_spec(other),
    {
        match axis {
            Axis3::X => {
                self.x = value;
            },
            Axis3::Y => {
                self.y = value;
            },
            Axis3::Z => {
                self.z = value;
            },
        }
    }

    /// The component along `axis`.
    pub open spec fn get_spec(&self, axis: Axis3) -> T {
        match axis {
            Axis3::X => self.x,
            Axis3::Y => self.y,
            Axis3::Z => self.z,
        }
    }

    /// The same components read as a displacement.
    pub fn to_vector(self) -> (r: Vector3<T, U>)
        ensures
            r.x == self.x,
            r.y == self.y,
            r.z == self.z,
    {
        Vector3::new(self.x, self.y, self.z)
    }

    /// The same components read as a covector.
    pub fn to_normal(self) -> (r: Vector3<T, Normal<U>>)
        ensures
            r.x == self.x,
            r.y == self.y,
            r.z == self.z,
    {
        Vector3::new(self.x, self.y, self.z)
    }

    /// The size with the given extents.
    pub fn from_lengths(x: Length<T, U>, y: Length<T, U>, z: Length<T, U>) -> (r: Self)
        ensures
            r.x == x.0,
            r.y == y.0,
            r.z == z.0,
    {
        Self::new(x.0, y.0, z.0)
    }

    /// Each component rounded to the nearest whole value.
    pub fn round(self) -> (r: Self) where T: Round
        ensures
            r == self.round_spec(),
    {
        Round::round(self)
    }

    /// Each component rounded up.
    pub fn ceil(self) -> (r: Self) where T: Ceil
        ensures
            r == self.ceil_spec(),
    {
        Ceil::ceil(self)
    }

    /// Each component rounded down.
    pub fn floor(self) -> (r: Self) where T: Floor
        ensures
            r == self.floor_spec(),
    {
        Floor::floor(self)
    }
}

impl<T: Scalar, U> Size3<T, U> {
    /// Values with the same view are the same value.
    pub proof fn lemma_view_injective(self, other: Self)
        requires
            self@ == other@,
        ensures
            self == other,
    {
        self.x.lemma_val_injective(other.x);
        self.y.lemma_val_injective(other.y);
        self.z.lemma_val_injective(other.z);
    }

    /// The product of the three extents.
    pub fn volume(self) -> (r: T)
        requires
            prod3_fits::<T>(self@.x, self@.y, self@.z),
        ensures
            r.val() == self@.x * self@.y * self@.z,
    {
        prod3(self.x, self.y, self.z)
    }

    /// The blend `self * (1 - t) + other * t`, componentwise.
    pub fn lerp(self, other: Self, t: T) -> (r: Self)
        requires
            T::fits(1 - t.val()),
            self@.scale(1 - t.val()).fits::<T>(),
            other@.scale(t.val()).fits::<T>(),
            self@.scale(1 - t.val()).add(other@.scale(t.val())).fits::<T>(),
        ensures
            r@ == self@.scale(1 - t.val()).add(other@.scale(t.val())),
    {
        let one_minus_t = T::one().sub(t);
        self * one_minus_t + other * t
    }

    /// The componentwise absolute value.
    pub fn abs(self) -> (r: Self)
        requires
            self@.abs().fits::<T>(),
        ensures
            r@ == self@.abs(),
    {
        Self::new(self.x.abs(), self.y.abs(), self.z.abs())
    }

    /// The same value over another scalar type, or nothing when a component
    /// is not representable there.
    pub fn try_cast<NewT: Scalar>(self) -> (r: Option<Size3<NewT, U>>)
        ensures
            r.is_some(
                ) <==> (castable::<NewT>(self@.x)
                && castable::<NewT>(self@.y)
                && castable::<NewT>(self@.z)
            ),
            r matches Some(c) ==> c@ == self@,
    {
        match (try_cast::<T, NewT>(self.x), try_cast::<T, NewT>(self.y), try_cast::<T, NewT>(self.z)) {
            (Some(x), Some(y), Some(z)) => Some(Size3::new(x, y, z)),
            _ => None,
        }
    }

    /// The same value over another scalar type, which must be able to
    /// represent every component.
    pub fn cast<NewT: Scalar>(self) -> (r: Size3<NewT, U>)
        requires
            castable::<NewT>(self@.x),
            castable::<NewT>(self@.y),
            castable::<NewT>(self@.z),
        ensures
            r@ == self@,
    {
        match self.try_cast() {
            Some(c) => c,
            None => {
                proof {
                    assert(false);
                }
                Size3::new(NewT::zero(), NewT::zero(), NewT::zero())
            },
        }
    }

    /// The same value with 32-bit coordinates, which must suffice.
    pub fn to_i32(self) -> (r: Size3<i32, U>)
        requires
            castable::<i32>(self@.x),
            castable::<i32>(self@.y),
            castable::<i32>(self@.z),
        ensures
            r@ == self@,
    {
        self.cast()
    }

    /// The same value with 64-bit coordinates, which must suffice.
    pub fn to_i64(self) -> (r: Size3<i64, U>)
        requires
            castable::<i64>(self@.x),
            castable::<i64>(self@.y),
            castable::<i64>(self@.z),
        ensures
            r@ == self@,
    {
        self.cast()
    }

    /// Whether every extent is above zero.
    pub fn is_positive(self) -> (r: bool)
        ensures
            r == (self@.x > 0 && self@.y > 0 && self@.z > 0),
    {
        self.x.is_positive() && self.y.is_positive() && self.z.is_positive()
    }

    /// The componentwise minimum.
    pub fn min(self, other: Self) -> (r: Self)
        ensures
            r@ == self@.min(other@),
    {
        Self::new(min(self.x, other.x), min(self.y, other.y), min(self.z, other.z))
    }

    /// The componentwise maximum.
    pub fn max(self, other: Self) -> (r: Self)
        ensures
            r@ == self@.max(other@),
    {
        Self::new(max(self.x, other.x), max(self.y, other.y), max(self.z, other.z))
    }

    /// Each component lowered to at most `max`'s, then raised to at least `min`'s.
    pub fn clamp(self, min: Self, max: Self) -> (r: Self)
        ensures
            r@ == self@.min(max@).max(min@),
    {
        self.min(max).max(min)
    }

    /// Whether every extent is at least `other`'s.
    pub fn contains(self, other: Self) -> (r: bool)
        ensures
            r == (self@.x >= other@.x && self@.y >= other@.y && self@.z >= other@.z),
    {
        self.cmp_ge(other).all()
    }

    /// Whether some extent is zero or negative.
    pub fn is_empty(self) -> (r: bool)
        ensures
            r == !(self@.x > 0 && self@.y > 0 && self@.z > 0),
    {
        let zero = T::zero();
        !(self.x.gt(zero) && self.y.gt(zero) && self.z.gt(zero))
    }

    /// Which components are equal.
    pub fn cmp_eq(self, other: Self) -> (r: Mask3)
        ensures
            r == (Mask3 { x: self@.x == other@.x, y: self@.y == other@.y, z: self@.z == other@.z }),
    {
        Mask3 { x: self.x.eq(other.x), y: self.y.eq(other.y), z: self.z.eq(other.z) }
    }

    /// Which components differ.
    pub fn cmp_ne(self, other: Self) -> (r: Mask3)
        ensures
            r == (Mask3 { x: self@.x != other@.x, y: self@.y != other@.y, z: self@.z != other@.z }),
    {
        Mask3 { x: self.x.ne(other.x), y: self.y.ne(other.y), z: self.z.ne(other.z) }
    }

    /// Which components are smaller than `other`'s.
    pub fn cmp_lt(self, other: Self) -> (r: Mask3)
        ensures
            r == (Mask3 { x: self@.x < other@.x, y: self@.y < other@.y, z: self@.z < other@.z }),
    {
        Mask3 { x: self.x.lt(other.x), y: self.y.lt(other.y), z: self.z.lt(other.z) }
    }

    /// Which components are at most `other`'s.
    pub fn cmp_le(self, other: Self) -> (r: Mask3)
        ensures
            r == (Mask3 { x: self@.x <= other@.x, y: self@.y <= other@.y, z: self@.z <= other@.z }),
    {
        Mask3 { x: self.x.le(other.x), y: self.y.le(other.y), z: self.z.le(other.z) }
    }

    /// Which components are greater than `other`'s.
    pub fn cmp_gt(self, other: Self) -> (r: Mask3)
        ensures
            r == (Mask3 { x: self@.x > other@.x, y: self@.y > other@.y, z: self@.z > other@.z }),
    {
        Mask3 { x: self.x.gt(other.x), y: self.y.gt(other.y), z: self.z.gt(other.z) }
    }

    /// Which components are at least `other`'s.
    pub fn cmp_ge(self, other: Self) -> (r: Mask3)
        ensures
            r == (Mask3 { x: self@.x >= other@.x, y: self@.y >= other@.y, z: self@.z >= other@.z }),
    {
        Mask3 { x: self.x.ge(other.x), y: self.y.ge(other.y), z: self.z.ge(other.z) }
    }
}

impl<T: Scalar, U> Default for Size3<T, U> {
    /// The value whose components are all zero.
    fn default() -> (r: Self)
        ensures
            r@ == Vec3::zero(),
    {
        Self::new(T::zero(), T::zero(), T::zero())
    }
}

impl<T: Scalar, U> Zero for Size3<T, U> {
    open spec fn is_zero(&self) -> bool {
        self@ == Vec3::zero()
    }

    fn zero() -> (r: Self) {
        Self::new(T::zero(), T::zero(), T::zero())
    }
}

impl<T: Round, U> Round for Size3<T, U> {
    open spec fn round_spec(self) -> Self {
        Size3 {
            x: self.x.round_spec(),
            y: self.y.round_spec(),
            z: self.z.round_spec(),
            _unit: self._unit,
        }
    }

    fn round(self) -> (r: Self) {
        Size3 { x: self.x.round(), y: self.y.round(), z: self.z.round(), _unit: PhantomData }
    }
}

impl<T: Ceil, U> Ceil for Size3<T, U> {
    open spec fn ceil_spec(self) -> Self {
        Size3 {
            x: self.x.ceil_spec(),
            y: self.y.ceil_spec(),
            z: self.z.ceil_spec(),
            _unit: self._unit,
        }
    }

    fn ceil(self) -> (r: Self) {
        Size3 { x: self.x.ceil(), y: self.y.ceil(), z: self.z.ceil(), _unit: PhantomData }
    }
}

impl<T: Floor, U> Floor for Size3<T, U> {
    open spec fn floor_spec(self) -> Self {
        Size3 {
            x: self.x.floor_spec(),
            y: self.y.floor_spec(),
            z: self.z.floor_spec(),
            _unit: self._unit,
        }
    }

    fn floor(self) -> (r: Self) {
        Size3 { x: self.x.floor(), y: self.y.floor(), z: self.z.floor(), _unit: PhantomData }
    }
}

impl<T: Scalar, U> NegSpecImpl for Size3<T, U> {
    open spec fn obeys_neg_spec() -> bool {
        true
    }

    open spec fn neg_req(self) -> bool {
        self@.neg().fits::<T>()
    }

    open spec fn neg_spec(self) -> Size3<T, U> {
        Size3 {
            x: T::of_int(-self.x.val()),
            y: T::of_int(-self.y.val()),
            z: T::of_int(-self.z.val()),
            _unit: PhantomData,
        }
    }
}

impl<T: Scalar, U> Neg for Size3<T, U> {
    type Output = Size3<T, U>;

    fn neg(self) -> (r: Size3<T, U>)
        ensures
            r@ == self@.neg(),
    {
        let r = Size3::new(self.x.neg(), self.y.neg(), self.z.neg());
        proof {
            lemma_is_of_int(r.x);
            lemma_is_of_int(r.y);
            lemma_is_of_int(r.z);
        }
        r
    }
}

impl<T: Scalar, U> MulSpecImpl<T> for Size3<T, U> {
    open spec fn obeys_mul_spec() -> bool {
        true
    }

    open spec fn mul_req(self, rhs: T) -> bool {
        self@.scale(rhs.val()).fits::<T>()
    }

    open spec fn mul_spec(self, rhs: T) -> Size3<T, U> {
        Size3 {
            x: T::of_int(self.x.val() * rhs.val()),
            y: T::of_int(self.y.val() * rhs.val()),
            z: T::of_int(self.z.val() * rhs.val()),
            _unit: PhantomData,
        }
    }
}

impl<T: Scalar, U> Mul<T> for Size3<T, U> {
    type Output = Size3<T, U>;

    fn mul(self, rhs: T) -> (r: Size3<T, U>)
        ensures
            r@ == self@.scale(rhs.val()),
    {
        let r = Size3::new(self.x.mul(rhs), self.y.mul(rhs), self.z.mul(rhs));
        proof {
            lemma_is_of_int(r.x);
            lemma_is_of_int(r.y);
            lemma_is_of_int(r.z);
        }
        r
    }
}

impl<T: Scalar, U> DivSpecImpl<T> for Size3<T, U> {
    open spec fn obeys_div_spec() -> bool {
        true
    }

    open spec fn div_req(self, rhs: T) -> bool {
        rhs.val() != 0 && self@.div(rhs.val()).fits::<T>()
    }

    open spec fn div_spec(self, rhs: T) -> Size3<T, U> {
        Size3 {
            x: T::of_int(trunc_div(self.x.val(), rhs.val())),
            y: T::of_int(trunc_div(self.y.val(), rhs.val())),
            z: T::of_int(trunc_div(self.z.val(), rhs.val())),
            _unit: PhantomData,
        }
    }
}

impl<T: Scalar, U> Div<T> for Size3<T, U> {
    type Output = Size3<T, U>;

    fn div(self, rhs: T) -> (r: Size3<T, U>)
        ensures
            r@ == self@.div(rhs.val()),
    {
        let r = Size3::new(self.x.div(rhs), self.y.div(rhs), self.z.div(rhs));
        proof {
            lemma_is_of_int(r.x);
            lemma_is_of_int(r.y);
            lemma_is_of_int(r.z);
        }
        r
    }
}

impl<T: Scalar, U> AddSpecImpl<Size3<T, U>> for Size3<T, U> {
    open spec fn obeys_add_spec() -> bool {
        true
    }

    open spec fn add_req(self, rhs: Size3<T, U>) -> bool {
        self@.add(rhs@).fits::<T>()
    }

    open spec fn add_spec(self, rhs: Size3<T, U>) -> Size3<T, U> {
        Size3 {
            x: T::of_int(self.x.val() + rhs.x.val()),
            y: T::of_int(self.y.val() + rhs.y.val()),
            z: T::of_int(self.z.val() + rhs.z.val()),
            _unit: PhantomData,
        }
    }
}

impl<T: Scalar, U> Add<Size3<T, U>> for Size3<T, U> {
    type Output = Size3<T, U>;

    fn add(self, rhs: Size3<T, U>) -> (r: Size3<T, U>)
        ensures
            r@ == self@.add(rhs@),
    {
        let r = Size3::new(self.x.add(rhs.x), self.y.add(rhs.y), self.z.add(rhs.z));
        proof {
            lemma_is_of_int(r.x);
            lemma_is_of_int(r.y);
            lemma_is_of_int(r.z);
        }
        r
    }
}

impl<T: Scalar, U> SubSpecImpl<Size3<T, U>> for Size3<T, U> {
    open spec fn obeys_sub_spec() -> bool {
        true
    }

    open spec fn sub_req(self, rhs: Size3<T, U>) -> bool {
        self@.sub(rhs@).fits::<T>()
    }

    open spec fn sub_spec(self, rhs: Size3<T, U>) -> Size3<T, U> {
        Size3 {
            x: T::of_int(self.x.val() - rhs.x.val()),
            y: T::of_int(self.y.val() - rhs.y.val()),
            z: T::of_int(self.z.val() - rhs.z.val()),
            _unit: PhantomData,
        }
    }
}

impl<T: Scalar, U> Sub<Size3<T, U>> for Size3<T, U> {
    type Output = Size3<T, U>;

    fn sub(self, rhs: Size3<T, U>) -> (r: Size3<T, U>)
        ensures
            r@ == self@.sub(rhs@),
    {
        let r = Size3::new(self.x.sub(rhs.x), self.y.sub(rhs.y), self.z.sub(rhs.z));
        proof {
            lemma_is_of_int(r.x);
            lemma_is_of_int(r.y);
            lemma_is_of_int(r.z);
        }
        r
    }
}

impl<T, U> vstd::std_specs::core::IndexSpecImpl<Axis3> for Size3<T, U> {
    open spec fn index_req(&self, index: &Axis3) -> bool {
        true
    }
}

/// The component along an axis.
impl<T, U> Index<Axis3> for Size3<T, U> {
    type Output = T;

    fn index(&self, axis: Axis3) -> (r: &T)
        ensures
            *r == self.get_spec(axis),
    {
        match axis {
            Axis3::X => &self.x,
            Axis3::Y => &self.y,
            Axis3::Z => &self.z,
        }
    }
}

impl<T: Copy, U> FromSpecImpl<[T; 3]> for Size3<T, U> {
    open spec fn obeys_from_spec() -> bool {
        true
    }

    open spec fn from_spec(a: [T; 3]) -> Self {
        Size3 { x: a[0], y: a[1], z: a[2], _unit: PhantomData }
    }
}

impl<T: Copy, U> From<[T; 3]> for Size3<T, U> {
    fn from(a: [T; 3]) -> (r: Self) {
        Self::new(a[0], a[1], a[2])
    }
}

impl<T, U> FromSpecImpl<(T, T, T)> for Size3<T, U> {
    open spec fn obeys_from_spec() -> bool {
        true
    }

    open spec fn from_spec(t: (T, T, T)) -> Self {
        Size3 { x: t.0, y: t.1, z: t.2, _unit: PhantomData }
    }
}

impl<T, U> From<(T, T, T)> for Size3<T, U> {
    fn from(t: (T, T, T)) -> (r: Self) {
        Self::new(t.0, t.1, t.2)
    }
}

impl<T, U> FromSpecImpl<Size3<T, U>> for (T, T, T) {
    open spec fn obeys_from_spec() -> bool {
        true
    }

    open spec fn from_spec(v: Size3<T, U>) -> Self {
        (v.x, v.y, v.z)
    }
}

impl<T, U> From<Size3<T, U>> for (T, T, T) {
    fn from(v: Size3<T, U>) -> (r: Self) {
        (v.x, v.y, v.z)
    }
}

impl<T, U> FromSpecImpl<Vector3<T, U>> for Size3<T, U> {
    open spec fn obeys_from_spec() -> bool {
        true
    }

    open spec fn from_spec(v: Vector3<T, U>) -> Self {
        Size3 { x: v.x, y: v.y, z: v.z, _unit: PhantomData }
    }
}

/// The displacement read as extents.
impl<T, U> From<Vector3<T, U>> for Size3<T, U> {
    fn from(v: Vector3<T, U>) -> (r: Self) {
        Self::new(v.x, v.y, v.z)
    }
}

} // verus!

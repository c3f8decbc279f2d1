//! Scalars with a physical meaning: lengths in a space, angles, durations.
use vstd::prelude::*;
use vstd::std_specs::cmp::{PartialEqSpecImpl, PartialOrdSpecImpl};
use vstd::std_specs::ops::{AddSpecImpl, DivSpecImpl, MulSpecImpl, NegSpecImpl, SubSpecImpl};
use std::cmp::Ordering;
use std::marker::PhantomData;
use std::ops::{Add, Div, Mul, Neg, Sub};
use crate::arith::lerp_fits;
use crate::num::{lemma_is_of_int, trunc_div, One, Scalar, Trig, Zero};
use crate::scale::Scale;

verus! {
/// A one-dimensional extent measured in space `U`.
#[derive(Debug, Hash)]
pub struct Length<T, U>(pub T, pub PhantomData<U>);

/// A duration.
#[derive(Debug, Hash)]
pub struct Time<T>(pub T);

/// An angle, in radians.
#[derive(Debug, Hash)]
pub struct Angle<T>(pub T);

impl<T: Copy, U> Copy for Length<T, U> {
}

impl<T: Copy, U> Clone for Length<T, U> {
    fn clone(&self) -> (r: Self)
        ensures
            r == *self,
    {
        *self
    }
}

impl<T: Scalar, U> View for Length<T, U> {
    type V = int;

    /// The integer the value stands for.
    open spec fn view(&self) -> int {
        self.0.val()
    }
}

impl<T: Scalar, U> PartialEqSpecImpl for Length<T, U> {
    open spec fn obeys_eq_spec() -> bool {
        true
    }

    open spec fn eq_spec(&self, other: &Self) -> bool {
        self@ == other@
    }
}

impl<T: Scalar, U> PartialEq for Length<T, U> {
    fn eq(&self, other: &Self) -> (r: bool) {
        self.0.eq(other.0)
    }
}

impl<T: Scalar, U> Eq for Length<T, U> {
}

impl<T: Scalar, U> PartialOrdSpecImpl for Length<T, U> {
    open spec fn obeys_partial_cmp_spec() -> bool {
        true
    }

    open spec fn partial_cmp_spec(&self, other: &Self) -> Option<Ordering> {
        if self@ < other@ {
            Some(Ordering::Less)
        } else if self@ == other@ {
            Some(Ordering::Equal)
        } else {
            Some(Ordering::Greater)
        }
    }
}

/// Ordered as the integers they stand for.
impl<T: Scalar, U> PartialOrd for Length<T, U> {
    fn partial_cmp(&self, other: &Self) -> (r: Option<Ordering>) {
        if self.0.lt(other.0) {
            Some(Ordering::Less)
        } else if self.0.eq(other.0) {
            Some(Ordering::Equal)
        } else {
            Some(Ordering::Greater)
        }
    }
}

impl<T: Scalar, U> Zero for Length<T, U> {
    open spec fn is_zero(&self) -> bool {
        self@ == 0
    }

    fn zero() -> (r: Self) {
        Length(T::zero(), PhantomData)
    }
}

impl<T: Scalar, U> One for Length<T, U> {
    open spec fn is_one(&self) -> bool {
        self@ == 1
    }

    fn one() -> (r: Self) {
        Length(T::one(), PhantomData)
    }
}

impl<T, U> Length<T, U> {
    pub fn new(v: T) -> (r: Self)
        ensures
            r.0 == v,
    {
        Length(v, PhantomData)
    }

    /// The bare scalar.
    pub fn get(self) -> (r: T)
        ensures
            r == self.0,
    {
        self.0
    }
}

impl<T: Scalar, U> Length<T, U> {
    /// The blend `(1 - t) * self + t * other`.
    pub fn lerp(self, other: Self, t: T) -> (r: Self)
        requires
            lerp_fits::<T>(self@, other@, t.val()),
        ensures
            r@ == (1 - t.val()) * self@ + t.val() * other@,
    {
        let one_minus_t = T::one().sub(t);
        Length::new(one_minus_t.mul(self.0).add(t.mul(other.0)))
    }

    /// The shorter of two lengths; `self` when they are equal.
    pub fn min(self, other: Self) -> (r: Self)
        ensures
            r == (if self@ <= other@ { self } else { other }),
    {
        if self.0.le(other.0) {
            self
        } else {
            other
        }
    }

    /// The longer of two lengths; `self` when they are equal.
    pub fn max(self, other: Self) -> (r: Self)
        ensures
            r == (if self@ >= other@ { self } else { other }),
    {
        if self.0.ge(other.0) {
            self
        } else {
            other
        }
    }
}

impl<T: Scalar, U> NegSpecImpl for Length<T, U> {
    open spec fn obeys_neg_spec() -> bool {
        true
    }

    open spec fn neg_req(self) -> bool {
        T::fits(-self@)
    }

    open spec fn neg_spec(self) -> Length<T, U> {
        Length(T::of_int(-self@), PhantomData)
    }
}

impl<T: Scalar, U> Neg for Length<T, U> {
    type Output = Length<T, U>;

    fn neg(self) -> (r: Length<T, U>)
        ensures
            r@ == -self@,
    {
        let r = Length(self.0.neg(), PhantomData);
        proof {
            lemma_is_of_int(r.0);
        }
        r
    }
}

impl<T: Scalar, U> AddSpecImpl<Length<T, U>> for Length<T, U> {
    open spec fn obeys_add_spec() -> bool {
        true
    }

    open spec fn add_req(self, rhs: Length<T, U>) -> bool {
        T::fits(self@ + rhs@)
    }

    open spec fn add_spec(self, rhs: Length<T, U>) -> Length<T, U> {
        Length(T::of_int(self@ + rhs@), PhantomData)
    }
}

impl<T: Scalar, U> Add<Length<T, U>> for Length<T, U> {
    type Output = Length<T, U>;

    fn add(self, rhs: Length<T, U>) -> (r: Length<T, U>)
        ensures
            r@ == self@ + rhs@,
    {
        let r = Length(self.0.add(rhs.0), PhantomData);
        proof {
            lemma_is_of_int(r.0);
        }
        r
    }
}

impl<T: Scalar, U> SubSpecImpl<Length<T, U>> for Length<T, U> {
    open spec fn obeys_sub_spec() -> bool {
        true
    }

    open spec fn sub_req(self, rhs: Length<T, U>) -> bool {
        T::fits(self@ - rhs@)
    }

    open spec fn sub_spec(self, rhs: Length<T, U>) -> Length<T, U> {
        Length(T::of_int(self@ - rhs@), PhantomData)
    }
}

impl<T: Scalar, U> Sub<Length<T, U>> for Length<T, U> {
    type Output = Length<T, U>;

    fn sub(self, rhs: Length<T, U>) -> (r: Length<T, U>)
        ensures
            r@ == self@ - rhs@,
    {
        let r = Length(self.0.sub(rhs.0), PhantomData);
        proof {
            lemma_is_of_int(r.0);
        }
        r
    }
}

impl<T: Scalar, U> MulSpecImpl<T> for Length<T, U> {
    open spec fn obeys_mul_spec() -> bool {
        true
    }

    open spec fn mul_req(self, rhs: T) -> bool {
        T::fits(self@ * rhs.val())
    }

    open spec fn mul_spec(self, rhs: T) -> Length<T, U> {
        Length(T::of_int(self@ * rhs.val()), PhantomData)
    }
}

impl<T: Scalar, U> Mul<T> for Length<T, U> {
    type Output = Length<T, U>;

    fn mul(self, rhs: T) -> (r: Length<T, U>)
        ensures
            r@ == self@ * rhs.val(),
    {
        let r = Length(self.0.mul(rhs), PhantomData);
        proof {
            lemma_is_of_int(r.0);
        }
        r
    }
}

impl<T: Scalar, U> DivSpecImpl<T> for Length<T, U> {
    open spec fn obeys_div_spec() -> bool {
        true
    }

    open spec fn div_req(self, rhs: T) -> bool {
        rhs.val() != 0 && T::fits(trunc_div(self@, rhs.val()))
    }

    open spec fn div_spec(self, rhs: T) -> Length<T, U> {
        Length(T::of_int(trunc_div(self@, rhs.val())), PhantomData)
    }
}

impl<T: Scalar, U> Div<T> for Length<T, U> {
    type Output = Length<T, U>;

    fn div(self, rhs: T) -> (r: Length<T, U>)
        ensures
            r@ == trunc_div(self@, rhs.val()),
    {
        let r = Length(self.0.div(rhs), PhantomData);
        proof {
            lemma_is_of_int(r.0);
        }
        r
    }
}

impl<T: Scalar, Src, Dst> DivSpecImpl<Length<T, Src>> for Length<T, Dst> {
    open spec fn obeys_div_spec() -> bool {
        true
    }

    open spec fn div_req(self, rhs: Length<T, Src>) -> bool {
        rhs@ != 0 && T::fits(trunc_div(self@, rhs@))
    }

    open spec fn div_spec(self, rhs: Length<T, Src>) -> Scale<T, Src, Dst> {
        Scale(T::of_int(trunc_div(self@, rhs@)), PhantomData)
    }
}

/// The ratio of a length in `Dst` to a length in `Src` is the scale that takes
/// the second to the first.
impl<T: Scalar, Src, Dst> Div<Length<T, Src>> for Length<T, Dst> {
    type Output = Scale<T, Src, Dst>;

    fn div(self, rhs: Length<T, Src>) -> (r: Scale<T, Src, Dst>)
        ensures
            r@ == trunc_div(self@, rhs@),
    {
        let r = Scale::new(self.0.div(rhs.0));
        proof {
            lemma_is_of_int(r.0);
        }
        r
    }
}

impl<T: Scalar, U1, U2> MulSpecImpl<Scale<T, U1, U2>> for Length<T, U1> {
    open spec fn obeys_mul_spec() -> bool {
        true
    }

    open spec fn mul_req(self, rhs: Scale<T, U1, U2>) -> bool {
        T::fits(self@ * rhs@)
    }

    open spec fn mul_spec(self, rhs: Scale<T, U1, U2>) -> Length<T, U2> {
        Length(T::of_int(self@ * rhs@), PhantomData)
    }
}

impl<T: Scalar, U1, U2> Mul<Scale<T, U1, U2>> for Length<T, U1> {
    type Output = Length<T, U2>;

    fn mul(self, rhs: Scale<T, U1, U2>) -> (r: Length<T, U2>)
        ensures
            r@ == self@ * rhs@,
    {
        let r = Length::new(self.0.mul(rhs.0));
        proof {
            lemma_is_of_int(r.0);
        }
        r
    }
}

impl<T: Scalar, U1, U2> DivSpecImpl<Scale<T, U1, U2>> for Length<T, U2> {
    open spec fn obeys_div_spec() -> bool {
        true
    }

    open spec fn div_req(self, rhs: Scale<T, U1, U2>) -> bool {
        rhs@ != 0 && T::fits(trunc_div(self@, rhs@))
    }

    open spec fn div_spec(self, rhs: Scale<T, U1, U2>) -> Length<T, U1> {
        Length(T::of_int(trunc_div(self@, rhs@)), PhantomData)
    }
}

impl<T: Scalar, U1, U2> Div<Scale<T, U1, U2>> for Length<T, U2> {
    type Output = Length<T, U1>;

    fn div(self, rhs: Scale<T, U1, U2>) -> (r: Length<T, U1>)
        ensures
            r@ == trunc_div(self@, rhs@),
    {
        let r = Length::new(self.0.div(rhs.0));
        proof {
            lemma_is_of_int(r.0);
        }
        r
    }
}

impl<T: Copy> Copy for Time<T> {
}

impl<T: Copy> Clone for Time<T> {
    fn clone(&self) -> (r: Self)
        ensures
            r == *self,
    {
        *self
    }
}

impl<T: Scalar> View for Time<T> {
    type V = int;

    /// The integer the value stands for.
    open spec fn view(&self) -> int {
        self.0.val()
    }
}

impl<T: Scalar> PartialEqSpecImpl for Time<T> {
    open spec fn obeys_eq_spec() -> bool {
        true
    }

    open spec fn eq_spec(&self, other: &Self) -> bool {
        self@ == other@
    }
}

impl<T: Scalar> PartialEq for Time<T> {
    fn eq(&self, other: &Self) -> (r: bool) {
        self.0.eq(other.0)
    }
}

impl<T: Scalar> Eq for Time<T> {
}

impl<T: Scalar> PartialOrdSpecImpl for Time<T> {
    open spec fn obeys_partial_cmp_spec() -> bool {
        true
    }

    open spec fn partial_cmp_spec(&self, other: &Self) -> Option<Ordering> {
        if self@ < other@ {
            Some(Ordering::Less)
        } else if self@ == other@ {
            Some(Ordering::Equal)
        } else {
            Some(Ordering::Greater)
        }
    }
}

/// Ordered as the integers they stand for.
impl<T: Scalar> PartialOrd for Time<T> {
    fn partial_cmp(&self, other: &Self) -> (r: Option<Ordering>) {
        if self.0.lt(other.0) {
            Some(Ordering::Less)
        } else if self.0.eq(other.0) {
            Some(Ordering::Equal)
        } else {
            Some(Ordering::Greater)
        }
    }
}

impl<T: Scalar> Zero for Time<T> {
    open spec fn is_zero(&self) -> bool {
        self@ == 0
    }

    fn zero() -> (r: Self) {
        Time(T::zero())
    }
}

impl<T: Scalar> AddSpecImpl<Time<T>> for Time<T> {
    open spec fn obeys_add_spec() -> bool {
        true
    }

    open spec fn add_req(self, rhs: Time<T>) -> bool {
        T::fits(self@ + rhs@)
    }

    open spec fn add_spec(self, rhs: Time<T>) -> Time<T> {
        Time(T::of_int(self@ + rhs@))
    }
}

impl<T: Scalar> Add<Time<T>> for Time<T> {
    type Output = Time<T>;

    fn add(self, rhs: Time<T>) -> (r: Time<T>)
        ensures
            r@ == self@ + rhs@,
    {
        let r = Time(self.0.add(rhs.0));
        proof {
            lemma_is_of_int(r.0);
        }
        r
    }
}

impl<T: Scalar> SubSpecImpl<Time<T>> for Time<T> {
    open spec fn obeys_sub_spec() -> bool {
        true
    }

    open spec fn sub_req(self, rhs: Time<T>) -> bool {
        T::fits(self@ - rhs@)
    }

    open spec fn sub_spec(self, rhs: Time<T>) -> Time<T> {
        Time(T::of_int(self@ - rhs@))
    }
}

impl<T: Scalar> Sub<Time<T>> for Time<T> {
    type Output = Time<T>;

    fn sub(self, rhs: Time<T>) -> (r: Time<T>)
        ensures
            r@ == self@ - rhs@,
    {
        let r = Time(self.0.sub(rhs.0));
        proof {
            lemma_is_of_int(r.0);
        }
        r
    }
}

impl<T: Scalar> MulSpecImpl<T> for Time<T> {
    open spec fn obeys_mul_spec() -> bool {
        true
    }

    open spec fn mul_req(self, rhs: T) -> bool {
        T::fits(self@ * rhs.val())
    }

    open spec fn mul_spec(self, rhs: T) -> Time<T> {
        Time(T::of_int(self@ * rhs.val()))
    }
}

impl<T: Scalar> Mul<T> for Time<T> {
    type Output = Time<T>;

    fn mul(self, rhs: T) -> (r: Time<T>)
        ensures
            r@ == self@ * rhs.val(),
    {
        let r = Time(self.0.mul(rhs));
        proof {
            lemma_is_of_int(r.0);
        }
        r
    }
}

impl<T: Scalar> DivSpecImpl<T> for Time<T> {
    open spec fn obeys_div_spec() -> bool {
        true
    }

    open spec fn div_req(self, rhs: T) -> bool {
        rhs.val() != 0 && T::fits(trunc_div(self@, rhs.val()))
    }

    open spec fn div_spec(self, rhs: T) -> Time<T> {
        Time(T::of_int(trunc_div(self@, rhs.val())))
    }
}

impl<T: Scalar> Div<T> for Time<T> {
    type Output = Time<T>;

    fn div(self, rhs: T) -> (r: Time<T>)
        ensures
            r@ == trunc_div(self@, rhs.val()),
    {
        let r = Time(self.0.div(rhs));
        proof {
            lemma_is_of_int(r.0);
        }
        r
    }
}

impl<T: Scalar> DivSpecImpl<Time<T>> for Time<T> {
    open spec fn obeys_div_spec() -> bool {
        true
    }

    open spec fn div_req(self, rhs: Time<T>) -> bool {
        rhs@ != 0 && T::fits(trunc_div(self@, rhs@))
    }

    open spec fn div_spec(self, rhs: Time<T>) -> T {
        T::of_int(trunc_div(self@, rhs@))
    }
}

/// How many times `rhs` goes into `self`, rounded toward zero.
impl<T: Scalar> Div<Time<T>> for Time<T> {
    type Output = T;

    fn div(self, rhs: Time<T>) -> (r: T)
        ensures
            r.val() == trunc_div(self@, rhs@),
    {
        let r = self.0.div(rhs.0);
        proof {
            lemma_is_of_int(r);
        }
        r
    }
}

impl<T: Copy> Copy for Angle<T> {
}

impl<T: Copy> Clone for Angle<T> {
    fn clone(&self) -> (r: Self)
        ensures
            r == *self,
    {
        *self
    }
}

impl<T: Scalar> View for Angle<T> {
    type V = int;

    /// The integer the value stands for.
    open spec fn view(&self) -> int {
        self.0.val()
    }
}

impl<T: Scalar> PartialEqSpecImpl for Angle<T> {
    open spec fn obeys_eq_spec() -> bool {
        true
    }

    open spec fn eq_spec(&self, other: &Self) -> bool {
        self@ == other@
    }
}

impl<T: Scalar> PartialEq for Angle<T> {
    fn eq(&self, other: &Self) -> (r: bool) {
        self.0.eq(other.0)
    }
}

impl<T: Scalar> Eq for Angle<T> {
}

impl<T: Scalar> PartialOrdSpecImpl for Angle<T> {
    open spec fn obeys_partial_cmp_spec() -> bool {
        true
    }

    open spec fn partial_cmp_spec(&self, other: &Self) -> Option<Ordering> {
        if self@ < other@ {
            Some(Ordering::Less)
        } else if self@ == other@ {
            Some(Ordering::Equal)
        } else {
            Some(Ordering::Greater)
        }
    }
}

/// Ordered as the integers they stand for.
impl<T: Scalar> PartialOrd for Angle<T> {
    fn partial_cmp(&self, other: &Self) -> (r: Option<Ordering>) {
        if self.0.lt(other.0) {
            Some(Ordering::Less)
        } else if self.0.eq(other.0) {
            Some(Ordering::Equal)
        } else {
            Some(Ordering::Greater)
        }
    }
}

impl<T: Scalar> Zero for Angle<T> {
    open spec fn is_zero(&self) -> bool {
        self@ == 0
    }

    fn zero() -> (r: Self) {
        Angle(T::zero())
    }
}

impl<T: Scalar> NegSpecImpl for Angle<T> {
    open spec fn obeys_neg_spec() -> bool {
        true
    }

    open spec fn neg_req(self) -> bool {
        T::fits(-self@)
    }

    open spec fn neg_spec(self) -> Angle<T> {
        Angle(T::of_int(-self@))
    }
}

impl<T: Scalar> Neg for Angle<T> {
    type Output = Angle<T>;

    fn neg(self) -> (r: Angle<T>)
        ensures
            r@ == -self@,
    {
        let r = Angle(self.0.neg());
        proof {
            lemma_is_of_int(r.0);
        }
        r
    }
}

impl<T: Scalar> AddSpecImpl<Angle<T>> for Angle<T> {
    open spec fn obeys_add_spec() -> bool {
        true
    }

    open spec fn add_req(self, rhs: Angle<T>) -> bool {
        T::fits(self@ + rhs@)
    }

    open spec fn add_spec(self, rhs: Angle<T>) -> Angle<T> {
        Angle(T::of_int(self@ + rhs@))
    }
}

impl<T: Scalar> Add<Angle<T>> for Angle<T> {
    type Output = Angle<T>;

    fn add(self, rhs: Angle<T>) -> (r: Angle<T>)
        ensures
            r@ == self@ + rhs@,
    {
        let r = Angle(self.0.add(rhs.0));
        proof {
            lemma_is_of_int(r.0);
        }
        r
    }
}

impl<T: Scalar> SubSpecImpl<Angle<T>> for Angle<T> {
    open spec fn obeys_sub_spec() -> bool {
        true
    }

    open spec fn sub_req(self, rhs: Angle<T>) -> bool {
        T::fits(self@ - rhs@)
    }

    open spec fn sub_spec(self, rhs: Angle<T>) -> Angle<T> {
        Angle(T::of_int(self@ - rhs@))
    }
}

impl<T: Scalar> Sub<Angle<T>> for Angle<T> {
    type Output = Angle<T>;

    fn sub(self, rhs: Angle<T>) -> (r: Angle<T>)
        ensures
            r@ == self@ - rhs@,
    {
        let r = Angle(self.0.sub(rhs.0));
        proof {
            lemma_is_of_int(r.0);
        }
        r
    }
}

impl<T: Scalar> MulSpecImpl<T> for Angle<T> {
    open spec fn obeys_mul_spec() -> bool {
        true
    }

    open spec fn mul_req(self, rhs: T) -> bool {
        T::fits(self@ * rhs.val())
    }

    open spec fn mul_spec(self, rhs: T) -> Angle<T> {
        Angle(T::of_int(self@ * rhs.val()))
    }
}

impl<T: Scalar> Mul<T> for Angle<T> {
    type Output = Angle<T>;

    fn mul(self, rhs: T) -> (r: Angle<T>)
        ensures
            r@ == self@ * rhs.val(),
    {
        let r = Angle(self.0.mul(rhs));
        proof {
            lemma_is_of_int(r.0);
        }
        r
    }
}

impl<T: Scalar> DivSpecImpl<T> for Angle<T> {
    open spec fn obeys_div_spec() -> bool {
        true
    }

    open spec fn div_req(self, rhs: T) -> bool {
        rhs.val() != 0 && T::fits(trunc_div(self@, rhs.val()))
    }

    open spec fn div_spec(self, rhs: T) -> Angle<T> {
        Angle(T::of_int(trunc_div(self@, rhs.val())))
    }
}

impl<T: Scalar> Div<T> for Angle<T> {
    type Output = Angle<T>;

    fn div(self, rhs: T) -> (r: Angle<T>)
        ensures
            r@ == trunc_div(self@, rhs.val()),
    {
        let r = Angle(self.0.div(rhs));
        proof {
            lemma_is_of_int(r.0);
        }
        r
    }
}

impl<T: Trig> Angle<T> {
    /// The angle of the given number of degrees.
    pub fn from_degrees(deg: T) -> (r: Self)
        ensures
            r.0 == T::degrees_to_radians_spec(deg),
    {
        Angle(T::degrees_to_radians(deg))
    }

    /// The angle in degrees.
    pub fn degrees(self) -> (r: T)
        ensures
            r == T::radians_to_degrees_spec(self.0),
    {
        T::radians_to_degrees(self.0)
    }
}

impl<T> Angle<T> {
    pub fn from_radians(rad: T) -> (r: Self)
        ensures
            r.0 == rad,
    {
        Angle(rad)
    }

    pub fn radians(self) -> (r: T)
        ensures
            r == self.0,
    {
        self.0
    }
}

impl<T: Scalar> DivSpecImpl<Angle<T>> for Angle<T> {
    open spec fn obeys_div_spec() -> bool {
        true
    }

    open spec fn div_req(self, rhs: Angle<T>) -> bool {
        rhs@ != 0 && T::fits(trunc_div(self@, rhs@))
    }

    open spec fn div_spec(self, rhs: Angle<T>) -> T {
        T::of_int(trunc_div(self@, rhs@))
    }
}

/// How many times `rhs` goes into `self`, rounded toward zero.
impl<T: Scalar> Div<Angle<T>> for Angle<T> {
    type Output = T;

    fn div(self, rhs: Angle<T>) -> (r: T)
        ensures
            r.val() == trunc_div(self@, rhs@),
    {
        let r = self.0.div(rhs.0);
        proof {
            lemma_is_of_int(r);
        }
        r
    }
}

} // verus!

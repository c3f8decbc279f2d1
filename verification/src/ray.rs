//! Rays: a starting point, a direction, and whatever the caller attaches.
use vstd::prelude::*;
use vstd::std_specs::cmp::{PartialEqSpec, PartialEqSpecImpl};
use crate::num::Scalar;
use crate::point::Point3;
use crate::units::Time;
use crate::vector::Vector3;

verus! {

/// A ray in space `U`, carrying a payload of type `D`.
#[derive(Debug, Hash)]
pub struct Ray<T, U, D = ()> {
    pub origin: Point3<T, U>,
    pub dir: Vector3<T, U>,
    pub data: D,
}

impl<T: Copy, U, D: Copy> Copy for Ray<T, U, D> {
}

impl<T: Copy, U, D: Copy> Clone for Ray<T, U, D> {
    fn clone(&self) -> (r: Self)
        ensures
            r == *self,
    {
        *self
    }
}

impl<T: Scalar, U, D: PartialEq> PartialEqSpecImpl for Ray<T, U, D> {
    open spec fn obeys_eq_spec() -> bool {
        D::obeys_eq_spec()
    }

    open spec fn eq_spec(&self, other: &Self) -> bool {
        self.origin@ == other.origin@ && self.dir@ == other.dir@ && self.data.eq_spec(&other.data)
    }
}

/// Rays are equal when they start at the same point, run the same way and
/// carry equal payloads.
impl<T: Scalar, U, D: PartialEq> PartialEq for Ray<T, U, D> {
    fn eq(&self, other: &Self) -> (r: bool) {
        self.origin == other.origin && self.dir == other.dir && self.data == other.data
    }
}

impl<T, U> Ray<T, U> {
    /// A ray without payload.
    pub fn new(origin: Point3<T, U>, dir: Vector3<T, U>) -> (r: Self)
        ensures
            r.origin == origin,
            r.dir == dir,
            r.data == (),
    {
        Self::with_data(origin, dir, ())
    }
}

impl<T, U, D> Ray<T, U, D> {
    pub fn with_data(origin: Point3<T, U>, dir: Vector3<T, U>, data: D) -> (r: Self)
        ensures
            r.origin == origin,
            r.dir == dir,
            r.data == data,
    {
        Self { origin, dir, data }
    }
}

impl<T: Scalar, U, D> Ray<T, U, D> {
    /// The point reached after travelling for `t` along the ray: the origin
    /// plus `t` times the direction.
    pub fn at(&self, t: Time<T>) -> (r: Point3<T, U>)
        requires
            self.dir@.scale(t@).fits::<T>(),
            self.origin@.add(self.dir@.scale(t@)).fits::<T>(),
        ensures
            r@ == self.origin@.add(self.dir@.scale(t@)),
    {
        self.origin + self.dir * t.0
    }
}

} // verus!

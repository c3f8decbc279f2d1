//! Coordinate-space tags and axis names. Tags carry no data: they exist so
//! that values measured in different spaces cannot be combined by accident.
use vstd::prelude::*;
use std::marker::PhantomData;

verus! {

/// The space of values whose space is not tracked.
#[derive(Debug, Clone, Copy, PartialEq, Eq, Hash)]
pub struct UnknownUnit;

/// The space of covectors (surface normals) of space `U`.
#[derive(Debug, Hash)]
pub struct Normal<U>(pub PhantomData<U>);

impl<U> Copy for Normal<U> {
}

impl<U> Clone for Normal<U> {
    fn clone(&self) -> (r: Self)
        ensures
            r == *self,
    {
        *self
    }
}

/// An axis of the plane.
#[derive(Debug, Copy, Clone, PartialEq, Eq, Structural, Hash)]
pub enum Axis2 {
    X,
    Y,
}

/// An axis of 3D space.
#[derive(Debug, Copy, Clone, PartialEq, Eq, Structural, Hash)]
pub enum Axis3 {
    X,
    Y,
    Z,
}

impl Axis2 {
    /// The other axis.
    pub open spec fn next_spec(self) -> Axis2 {
        match self {
            Axis2::X => Axis2::Y,
            Axis2::Y => Axis2::X,
        }
    }

    /// Both axes, in order.
    pub fn axes() -> (r: [Axis2; 2])
        ensures
            r@ == seq![Axis2::X, Axis2::Y],
    {
        [Axis2::X, Axis2::Y]
    }

    /// The other axis.
    pub fn next(self) -> (r: Axis2)
        ensures
            r == self.next_spec(),
    {
        match self {
            Axis2::X => Axis2::Y,
            Axis2::Y => Axis2::X,
        }
    }

    /// Stepping twice returns to the start.
    pub proof fn lemma_next_cycles(self)
        ensures
            self.next_spec().next_spec() == self,
            self.next_spec() != self,
    {
    }
}

impl Axis3 {
    /// The axis after this one, cyclically: X, Y, Z, X.
    pub open spec fn next_spec(self) -> Axis3 {
        match self {
            Axis3::X => Axis3::Y,
            Axis3::Y => Axis3::Z,
            Axis3::Z => Axis3::X,
        }
    }

    /// All three axes, in order.
    pub fn axes() -> (r: [Axis3; 3])
        ensures
            r@ == seq![Axis3::X, Axis3::Y, Axis3::Z],
    {
        [Axis3::X, Axis3::Y, Axis3::Z]
    }

    /// The axis after this one, cyclically: X, Y, Z, X.
    pub fn next(self) -> (r: Axis3)
        ensures
            r == self.next_spec(),
    {
        match self {
            Axis3::X => Axis3::Y,
            Axis3::Y => Axis3::Z,
            Axis3::Z => Axis3::X,
        }
    }

    /// Stepping three times returns to the start.
    pub proof fn lemma_next_cycles(self)
        ensures
            self.next_spec().next_spec().next_spec() == self,
            self.next_spec() != self,
            self.next_spec().next_spec() != self,
    {
    }
}

} // verus!

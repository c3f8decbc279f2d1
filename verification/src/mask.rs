//! Per-component boolean masks, the result of componentwise comparisons.
use vstd::prelude::*;
use std::ops::Index;
use crate::point::{Point2, Point3};
use crate::space::{Axis2, Axis3};
use crate::vector::{Vector2, Vector3};

verus! {

/// One boolean per component of a 2D value.
#[derive(Default, Debug, Copy, Clone, PartialEq, Eq, Structural, Hash)]
pub struct Mask2 {
    pub x: bool,
    pub y: bool,
}

/// One boolean per component of a 3D value.
#[derive(Default, Debug, Copy, Clone, PartialEq, Eq, Structural, Hash)]
pub struct Mask3 {
    pub x: bool,
    pub y: bool,
    pub z: bool,
}

/// Componentwise choice between two values of type `T`, steered by a mask.
pub trait Select<T>: Sized {
    /// The value holding, per component, `a`'s where the mask is set and `b`'s elsewhere.
    spec fn select_spec(self, a: T, b: T) -> T;

    fn select(self, a: T, b: T) -> (r: T)
        ensures
            r == self.select_spec(a, b),
    ;
}

impl Mask2 {
    pub fn new(x: bool, y: bool) -> (r: Self)
        ensures
            r == (Mask2 { x, y }),
    {
        Self { x, y }
    }

    /// Whether every component is set.
    pub fn all(self) -> (r: bool)
        ensures
            r == (self.x && self.y),
    {
        self.x && self.y
    }

    /// Whether some component is set.
    pub fn any(self) -> (r: bool)
        ensures
            r == (self.x || self.y),
    {
        self.x || self.y
    }

    /// Whether no component is set.
    pub fn none(self) -> (r: bool)
        ensures
            r == (!self.x && !self.y),
    {
        !self.any()
    }

    pub fn not(self) -> (r: Self)
        ensures
            r == (Mask2 { x: !self.x, y: !self.y }),
    {
        Self::new(!self.x, !self.y)
    }

    pub fn and(self, rhs: Self) -> (r: Self)
        ensures
            r == (Mask2 { x: self.x && rhs.x, y: self.y && rhs.y }),
    {
        Self::new(self.x && rhs.x, self.y && rhs.y)
    }

    pub fn or(self, rhs: Self) -> (r: Self)
        ensures
            r == (Mask2 { x: self.x || rhs.x, y: self.y || rhs.y }),
    {
        Self::new(self.x || rhs.x, self.y || rhs.y)
    }

    /// Componentwise choice: `where_true`'s component where the mask is set,
    /// `where_false`'s elsewhere.
    pub fn select<T>(self, where_true: T, where_false: T) -> (r: T) where Self: Select<T>
        ensures
            r == self.select_spec(where_true, where_false),
    {
        Select::select(self, where_true, where_false)
    }

    /// The component along `axis`.
    pub fn get(self, axis: Axis2) -> (r: bool)
        ensures
            r == (match axis {
                Axis2::X => self.x,
                Axis2::Y => self.y,
            }),
    {
        match axis {
            Axis2::X => self.x,
            Axis2::Y => self.y,
        }
    }

    /// Replaces the component along `axis`.
    pub fn set(&mut self, axis: Axis2, value: bool)
        ensures
            *final(self) == (match axis {
                Axis2::X => Mask2 { x: value, y: old(self).y },
                Axis2::Y => Mask2 { x: old(self).x, y: value },
            }),
    {
        match axis {
            Axis2::X => {
                self.x = value;
            },
            Axis2::Y => {
                self.y = value;
            },
        }
    }

    /// Negating twice changes nothing, and De Morgan's law holds.
    pub proof fn lemma_not_laws(self, rhs: Self)
        ensures
            (Mask2 { x: !!self.x, y: !!self.y }) == self,
            (Mask2 { x: !(self.x && rhs.x), y: !(self.y && rhs.y) }) == (Mask2 {
                x: !self.x || !rhs.x,
                y: !self.y || !rhs.y,
            }),
    {
    }
}

impl Mask3 {
    pub fn new(x: bool, y: bool, z: bool) -> (r: Self)
        ensures
            r == (Mask3 { x, y, z }),
    {
        Self { x, y, z }
    }

    /// Whether every component is set.
    pub fn all(self) -> (r: bool)
        ensures
            r == (self.x && self.y && self.z),
    {
        self.x && self.y && self.z
    }

    /// Whether some component is set.
    pub fn any(self) -> (r: bool)
        ensures
            r == (self.x || self.y || self.z),
    {
        self.x || self.y || self.z
    }

    /// Whether no component is set.
    pub fn none(self) -> (r: bool)
        ensures
            r == (!self.x && !self.y && !self.z),
    {
        !self.any()
    }

    pub fn not(self) -> (r: Self)
        ensures
            r == (Mask3 { x: !self.x, y: !self.y, z: !self.z }),
    {
        Self::new(!self.x, !self.y, !self.z)
    }

    pub fn and(self, rhs: Self) -> (r: Self)
        ensures
            r == (Mask3 { x: self.x && rhs.x, y: self.y && rhs.y, z: self.z && rhs.z }),
    {
        Self::new(self.x && rhs.x, self.y && rhs.y, self.z && rhs.z)
    }

    pub fn or(self, rhs: Self) -> (r: Self)
        ensures
            r == (Mask3 { x: self.x || rhs.x, y: self.y || rhs.y, z: self.z || rhs.z }),
    {
        Self::new(self.x || rhs.x, self.y || rhs.y, self.z || rhs.z)
    }

    /// Componentwise choice: `where_true`'s component where the mask is set,
    /// `where_false`'s elsewhere.
    pub fn select<T>(self, where_true: T, where_false: T) -> (r: T) where Self: Select<T>
        ensures
            r == self.select_spec(where_true, where_false),
    {
        Select::select(self, where_true, where_false)
    }

    /// The component along `axis`.
    pub fn get(self, axis: Axis3) -> (r: bool)
        ensures
            r == (match axis {
                Axis3::X => self.x,
                Axis3::Y => self.y,
                Axis3::Z => self.z,
            }),
    {
        match axis {
            Axis3::X => self.x,
            Axis3::Y => self.y,
            Axis3::Z => self.z,
        }
    }

    /// Replaces the component along `axis`.
    pub fn set(&mut self, axis: Axis3, value: bool)
        ensures
            *final(self) == (match axis {
                Axis3::X => Mask3 { x: value, y: old(self).y, z: old(self).z },
                Axis3::Y => Mask3 { x: old(self).x, y: value, z: old(self).z },
                Axis3::Z => Mask3 { x: old(self).x, y: old(self).y, z: value },
            }),
    {
        match axis {
            Axis3::X => {
                self.x = value;
            },
            Axis3::Y => {
                self.y = value;
            },
            Axis3::Z => {
                self.z = value;
            },
        }
    }
}

impl vstd::std_specs::core::IndexSpecImpl<Axis2> for Mask2 {
    open spec fn index_req(&self, index: &Axis2) -> bool {
        true
    }
}

/// The component along an axis.
impl Index<Axis2> for Mask2 {
    type Output = bool;

    fn index(&self, axis: Axis2) -> (r: &bool)
        ensures
            *r == (match axis {
                Axis2::X => self.x,
                Axis2::Y => self.y,
            }),
    {
        match axis {
            Axis2::X => &self.x,
            Axis2::Y => &self.y,
        }
    }
}

impl vstd::std_specs::core::IndexSpecImpl<Axis3> for Mask3 {
    open spec fn index_req(&self, index: &Axis3) -> bool {
        true
    }
}

/// The component along an axis.
impl Index<Axis3> for Mask3 {
    type Output = bool;

    fn index(&self, axis: Axis3) -> (r: &bool)
        ensures
            *r == (match axis {
                Axis3::X => self.x,
                Axis3::Y => self.y,
                Axis3::Z => self.z,
            }),
    {
        match axis {
            Axis3::X => &self.x,
            Axis3::Y => &self.y,
            Axis3::Z => &self.z,
        }
    }
}

impl<T, U> Select<Point2<T, U>> for Mask2 {
    open spec fn select_spec(self, a: Point2<T, U>, b: Point2<T, U>) -> Point2<T, U> {
        Point2 {
            x: if self.x { a.x } else { b.x },
            y: if self.y { a.y } else { b.y },
            _unit: a._unit,
        }
    }

    fn select(self, a: Point2<T, U>, b: Point2<T, U>) -> (r: Point2<T, U>) {
        Point2::new(if self.x { a.x } else { b.x }, if self.y { a.y } else { b.y })
    }
}

impl<T, U> Select<Point3<T, U>> for Mask3 {
    open spec fn select_spec(self, a: Point3<T, U>, b: Point3<T, U>) -> Point3<T, U> {
        Point3 {
            x: if self.x { a.x } else { b.x },
            y: if self.y { a.y } else { b.y },
            z: if self.z { a.z } else { b.z },
            _unit: a._unit,
        }
    }

    fn select(self, a: Point3<T, U>, b: Point3<T, U>) -> (r: Point3<T, U>) {
        Point3::new(
            if self.x { a.x } else { b.x },
            if self.y { a.y } else { b.y },
            if self.z { a.z } else { b.z },
        )
    }
}

impl<T, U> Select<Vector2<T, U>> for Mask2 {
    open spec fn select_spec(self, a: Vector2<T, U>, b: Vector2<T, U>) -> Vector2<T, U> {
        Vector2 {
            x: if self.x { a.x } else { b.x },
            y: if self.y { a.y } else { b.y },
            _unit: a._unit,
        }
    }

    fn select(self, a: Vector2<T, U>, b: Vector2<T, U>) -> (r: Vector2<T, U>) {
        Vector2::new(if self.x { a.x } else { b.x }, if self.y { a.y } else { b.y })
    }
}

impl<T, U> Select<Vector3<T, U>> for Mask3 {
    open spec fn select_spec(self, a: Vector3<T, U>, b: Vector3<T, U>) -> Vector3<T, U> {
        Vector3 {
            x: if self.x { a.x } else { b.x },
            y: if self.y { a.y } else { b.y },
            z: if self.z { a.z } else { b.z },
            _unit: a._unit,
        }
    }

    fn select(self, a: Vector3<T, U>, b: Vector3<T, U>) -> (r: Vector3<T, U>) {
        Vector3::new(
            if self.x { a.x } else { b.x },
            if self.y { a.y } else { b.y },
            if self.z { a.z } else { b.z },
        )
    }
}

} // verus!

//! Axis-aligned boxes and the fitting of a box around a set of points.
use vstd::prelude::*;
use vstd::std_specs::cmp::PartialEqSpecImpl;
use vstd::std_specs::convert::FromSpecImpl;
use vstd::std_specs::ops::{DivSpecImpl, MulSpecImpl};
use std::marker::PhantomData;
use std::ops::{Div, Mul, Range};
use crate::arith::{lerp_fits, prod3, prod3_fits};
use crate::model::{
    tight_bounds2, tight_bounds3, tight_bounds_of_first2, tight_bounds_of_first3, Vec2, Vec3,
};
use crate::num::{castable, lemma_is_of_int, trunc_div, Ceil, Floor, Scalar, Zero};
use crate::point::{Point2, Point3};
use crate::size::{Size2, Size3};
use crate::space::{Axis2, Axis3, UnknownUnit};
use crate::units::Length;
use crate::vector::{Vector2, Vector3};

verus! {
/// An axis-aligned box in space `U`, given by its lowest and highest corner.
/// The box holds the points from `min` up to, but not including, `max`.
#[derive(Debug, Hash)]
pub struct Box2<T, U> {
    pub min: Point2<T, U>,
    pub max: Point2<T, U>,
}

impl<T: Copy, U> Copy for Box2<T, U> {
}

impl<T: Copy, U> Clone for Box2<T, U> {
    fn clone(&self) -> (r: Self)
        ensures
            r == *self,
    {
        *self
    }
}

impl<T: Scalar, U> PartialEqSpecImpl for Box2<T, U> {
    open spec fn obeys_eq_spec() -> bool {
        true
    }

    open spec fn eq_spec(&self, other: &Self) -> bool {
        self.min@ == other.min@ && self.max@ == other.max@
    }
}

impl<T: Scalar, U> PartialEq for Box2<T, U> {
    fn eq(&self, other: &Self) -> (r: bool) {
        self.min == other.min && self.max == other.max
    }
}

impl<T: Scalar, U> Eq for Box2<T, U> {
}

/// The integer views of a sequence of points, in order.
pub open spec fn views2<T: Scalar, U>(points: Seq<Point2<T, U>>) -> Seq<Vec2> {
    Seq::new(points.len(), |i: int| points[i]@)
}

/// The points of a sequence of results, where every one is present.
pub open spec fn ok_points2<T, U, E>(points: Seq<Result<Point2<T, U>, E>>) -> Seq<Point2<T, U>> {
    Seq::new(points.len(), |i: int| points[i]->Ok_0)
}

/// Index of the first failure in a sequence of results, if `k` is it.
pub open spec fn first_err_at2<T, U, E>(points: Seq<Result<Point2<T, U>, E>>, k: int) -> bool {
    &&& 0 <= k < points.len()
    &&& points[k] is Err
    &&& forall|j: int| 0 <= j < k ==> (#[trigger] points[j]) is Ok
}

impl<T, U> Box2<T, U> {
    pub fn new(min: Point2<T, U>, max: Point2<T, U>) -> (r: Self)
        ensures
            r.min == min,
            r.max == max,
    {
        Self { min, max }
    }
}

impl<T: Scalar, U> Box2<T, U> {
    /// The box is empty when it is not strictly positive along every axis.
    pub open spec fn is_empty_spec(&self) -> bool {
        !(self.max@.x > self.min@.x && self.max@.y > self.min@.y)
    }

    /// Whether `p` lies in the half-open box.
    pub open spec fn contains_spec(&self, p: Vec2) -> bool {
        self.min@.x <= p.x < self.max@.x && self.min@.y <= p.y < self.max@.y
    }

    /// The smallest box around two boxes, an empty one counting for nothing.
    pub open spec fn union_spec(&self, other: &Self) -> Self {
        if other.is_empty_spec() {
            *self
        } else if self.is_empty_spec() {
            *other
        } else {
            Box2 {
                min: Point2 {
                    x: if self.min@.x <= other.min@.x { self.min.x } else { other.min.x },
                    y: if self.min@.y <= other.min@.y { self.min.y } else { other.min.y },
                    _unit: self.min._unit,
                },
                max: Point2 {
                    x: if self.max@.x >= other.max@.x { self.max.x } else { other.max.x },
                    y: if self.max@.y >= other.max@.y { self.max.y } else { other.max.y },
                    _unit: self.max._unit,
                },
            }
        }
    }

    /// The union of two boxes holds every point that either of them holds.
    pub proof fn lemma_union_holds_both(&self, other: &Self, p: Vec2)
        requires
            self.contains_spec(p) || other.contains_spec(p),
        ensures
            self.union_spec(other).contains_spec(p),
    {
    }

    /// The box between the higher of the low corners and the lower of the
    /// high corners holds exactly the points that both boxes hold.
    pub proof fn lemma_intersection_holds_common(&self, other: &Self, common: &Self, p: Vec2)
        requires
            common.min@ == self.min@.max(other.min@),
            common.max@ == self.max@.min(other.max@),
        ensures
            common.contains_spec(p) <==> self.contains_spec(p) && other.contains_spec(p),
            common.is_empty_spec() <==> forall|q: Vec2|
                !(self.contains_spec(q) && other.contains_spec(q)),
    {
        if !common.is_empty_spec() {
            assert(self.contains_spec(common.min@) && other.contains_spec(common.min@));
        }
        assert forall|q: Vec2| common.is_empty_spec() implies !(self.contains_spec(q)
            && other.contains_spec(q)) by {}
    }

    /// A box moved by `by` holds exactly the points of the original moved by
    /// `by`.
    pub proof fn lemma_translate_moves_points(&self, moved: &Self, by: Vec2, p: Vec2)
        requires
            moved.min@ == self.min@.add(by),
            moved.max@ == self.max@.add(by),
        ensures
            moved.contains_spec(p.add(by)) <==> self.contains_spec(p),
            moved.is_empty_spec() <==> self.is_empty_spec(),
    {
    }

    /// A box is empty exactly when it holds no point.
    pub proof fn lemma_empty_holds_nothing(&self)
        ensures
            self.is_empty_spec() <==> forall|p: Vec2| !self.contains_spec(p),
    {
        if !self.is_empty_spec() {
            assert(self.contains_spec(self.min@));
        }
    }

    /// The box from the origin to the origin.
    pub fn empty() -> (r: Self)
        ensures
            r.min@ == Vec2::zero(),
            r.max@ == Vec2::zero(),
    {
        Self::new(Point2::zero(), Point2::zero())
    }

    /// The box from the origin to the corner given by `size`.
    pub fn from_size(size: Size2<T, U>) -> (r: Self)
        ensures
            r.min@ == Vec2::zero(),
            r.max@ == size@,
    {
        Self::new(Point2::zero(), Point2::new(size.x, size.y))
    }

    pub fn is_empty(&self) -> (r: bool)
        ensures
            r == self.is_empty_spec(),
    {
        !(self.max.x.gt(self.min.x) && self.max.y.gt(self.min.y))
    }

    /// Whether the two boxes share a point.
    pub fn intersects(&self, other: &Self) -> (r: bool)
        ensures
            r == (
                self.min@.x < other.max@.x
                && other.min@.x < self.max@.x
                && self.min@.y < other.max@.y
                && other.min@.y < self.max@.y
            ),
    {
        self.min.x.lt(other.max.x) && other.min.x.lt(self.max.x)
            && self.min.y.lt(other.max.y) && other.min.y.lt(self.max.y)
    }

    /// Whether `p` lies in the box: at or above `min`, strictly below `max`.
    pub fn contains(&self, p: Point2<T, U>) -> (r: bool)
        ensures
            r == self.contains_spec(p@),
    {
        self.min.x.le(p.x) && p.x.lt(self.max.x)
            && self.min.y.le(p.y) && p.y.lt(self.max.y)
    }

    /// Whether `other` lies inside this box. An empty box lies inside every box.
    pub fn contains_box(&self, other: &Self) -> (r: bool)
        ensures
            r == (other.is_empty_spec() || (self.min@.x <= other.min@.x && other.max@.x <= self.max@.x && self.min@.y <= other.min@.y && other.max@.y <= self.max@.y)),
    {
        other.is_empty() || (self.min.x.le(other.min.x) && other.max.x.le(self.max.x)
            && self.min.y.le(other.min.y) && other.max.y.le(self.max.y))
    }

    /// The same corners with the space forgotten.
    pub fn erase_unit(&self) -> (r: Box2<T, UnknownUnit>)
        ensures
            r.min@ == self.min@,
            r.max@ == self.max@,
    {
        Box2::new(self.min.erase_unit(), self.max.erase_unit())
    }

    /// The box moved by `by`.
    pub fn translate(&self, by: Vector2<T, U>) -> (r: Self)
        requires
            self.min@.add(by@).fits::<T>(),
            self.max@.add(by@).fits::<T>(),
        ensures
            r.min@ == self.min@.add(by@),
            r.max@ == self.max@.add(by@),
    {
        Self::new(self.min + by, self.max + by)
    }

    /// The box grown by the given amounts on both sides of each axis.
    pub fn inflate(&self, dx: T, dy: T) -> (r: Self)
        requires
            self.min@.sub(Vec2 { x: dx.val(), y: dy.val() }).fits::<T>(),
            self.max@.add(Vec2 { x: dx.val(), y: dy.val() }).fits::<T>(),
        ensures
            r.min@ == self.min@.sub(Vec2 { x: dx.val(), y: dy.val() }),
            r.max@ == self.max@.add(Vec2 { x: dx.val(), y: dy.val() }),
    {
        let p = Vector2::new(dx, dy);
        Self::new(self.min - p, self.max + p)
    }

    /// The half-open interval the box covers along `axis`.
    pub fn range(&self, axis: Axis2) -> (r: Range<T>)
        ensures
            r.start == self.min.get_spec(axis),
            r.end == self.max.get_spec(axis),
    {
        self.min.get(axis)..self.max.get(axis)
    }

    /// The midpoint of the two corners, each coordinate rounded toward zero.
    pub fn center(&self) -> (r: Point2<T, U>)
        requires
            T::fits(2),
            self.min@.add(self.max@).fits::<T>(),
            self.min@.add(self.max@).div(2).fits::<T>(),
        ensures
            r@ == self.min@.add(self.max@).div(2),
    {
        let two = T::one().add(T::one());
        (self.min + self.max.to_vector()) / two
    }

    /// The extent along `axis`.
    pub fn length(&self, axis: Axis2) -> (r: Length<T, U>)
        requires
            T::fits(self.max.get_spec(axis).val() - self.min.get_spec(axis).val()),
        ensures
            r@ == self.max.get_spec(axis).val() - self.min.get_spec(axis).val(),
    {
        let raw = self.max.get(axis).sub(self.min.get(axis));
        Length::new(raw)
    }

    /// The extents along all axes.
    pub fn size(&self) -> (r: Size2<T, U>)
        requires
            self.max@.sub(self.min@).fits::<T>(),
        ensures
            r@ == self.max@.sub(self.min@),
    {
        (self.max - self.min).to_size()
    }

    /// The product of the two extents.
    pub fn area(&self) -> (r: T)
        requires
            self.max@.sub(self.min@).fits::<T>(),
            T::fits((self.max@.x - self.min@.x) * (self.max@.y - self.min@.y)),
        ensures
            r.val() == (self.max@.x - self.min@.x) * (self.max@.y - self.min@.y),
    {
        let size = self.size();
        size.x.mul(size.y)
    }

    /// The smallest box around both boxes. An empty box adds nothing.
    pub fn union(&self, other: &Self) -> (r: Self)
        ensures
            r == self.union_spec(other),
    {
        if other.is_empty() {
            *self
        } else if self.is_empty() {
            *other
        } else {
            let r = Self { min: self.min.min(other.min), max: self.max.max(other.max) };
            proof {
                r.min.lemma_view_injective(self.union_spec(other).min);
                r.max.lemma_view_injective(self.union_spec(other).max);
            }
            r
        }
    }

    /// The box common to both, or nothing when they share no point.
    pub fn intersection(&self, other: &Self) -> (r: Option<Self>)
        ensures
            match r {
                Some(b) => b.min@ == self.min@.max(other.min@) && b.max@ == self.max@.min(
                    other.max@,
                ) && !b.is_empty_spec(),
                None => !(
                    self.min@.max(other.min@).x < self.max@.min(other.max@).x
                    && self.min@.max(other.min@).y < self.max@.min(other.max@).y
                ),
            },
    {
        let ret = self.intersection_unchecked(other);
        if !ret.is_empty() {
            Some(ret)
        } else {
            None
        }
    }

    /// The box between the higher of the low corners and the lower of the high
    /// corners. It is empty or inverted when the boxes share no point.
    pub fn intersection_unchecked(&self, other: &Self) -> (r: Self)
        ensures
            r.min@ == self.min@.max(other.min@),
            r.max@ == self.max@.min(other.max@),
    {
        Self { min: self.min.max(other.min), max: self.max.min(other.max) }
    }

    /// The tight bounding box of `points`: the smallest axis-aligned box that
    /// reaches every one of them. With no points, the empty box at the origin.
    pub fn from_points(points: &[Point2<T, U>]) -> (r: Self)
        ensures
            points@.len() == 0 ==> r.min@ == Vec2::zero() && r.max@ == Vec2::zero(),
            points@.len() > 0 ==> tight_bounds2(views2(points@), r.min@, r.max@),
    {
        if points.len() == 0 {
            return Self::empty();
        }
        let mut min = points[0];
        let mut max = min;
        let mut i: usize = 1;
        proof {
            assert(views2(points@)[0] == min@);
        }
        while i < points.len()
            invariant
                1 <= i <= points.len(),
                tight_bounds_of_first2(views2(points@), i as int, min@, max@),
            decreases points.len() - i,
        {
            let point = points[i];
            let ghost old_min = min;
            let ghost old_max = max;
            min = point.min(min);
            max = point.max(max);
            proof {
                let pts = views2(points@);
                assert(pts[i as int] == point@);
                assert forall|j: int| 0 <= j < i + 1 implies (#[trigger] pts[j]).between(
                    min@,
                    max@,
                ) by {
                    if j < i {
                        assert(pts[j].between(old_min@, old_max@));
                    }
                }
                let w = choose|j: int| 0 <= j < i && (#[trigger] pts[j]).x == old_min@.x;
                assert(pts[w].x == min@.x || pts[i as int].x == min@.x);
                let w = choose|j: int| 0 <= j < i && (#[trigger] pts[j]).y == old_min@.y;
                assert(pts[w].y == min@.y || pts[i as int].y == min@.y);
                let w = choose|j: int| 0 <= j < i && (#[trigger] pts[j]).x == old_max@.x;
                assert(pts[w].x == max@.x || pts[i as int].x == max@.x);
                let w = choose|j: int| 0 <= j < i && (#[trigger] pts[j]).y == old_max@.y;
                assert(pts[w].y == max@.y || pts[i as int].y == max@.y);
            }
            i = i + 1;
        }
        Self::new(min, max)
    }

    /// The tight bounding box of `points`, unless one of them is missing: then
    /// the first failure, in the order given, is returned.
    pub fn try_from_points<E: Copy>(points: &[Result<Point2<T, U>, E>]) -> (r: Result<Self, E>)
        ensures
            match r {
                Ok(b) => {
                    &&& forall|j: int| 0 <= j < points@.len() ==> (#[trigger] points@[j]) is Ok
                    &&& points@.len() == 0 ==> b.min@ == Vec2::zero() && b.max@ == Vec2::zero()
                    &&& points@.len() > 0
                        ==> tight_bounds2(views2(ok_points2(points@)), b.min@, b.max@)
                },
                Err(e) => exists|k: int| first_err_at2(points@, k)
                    && #[trigger] points@[k] == Err::<
                    Point2<T, U>,
                    E,
                >(e),
            },
    {
        if points.len() == 0 {
            return Ok(Self::empty());
        }
        let mut min = match points[0] {
            Ok(p) => p,
            Err(e) => {
                proof {
                    assert(first_err_at2(points@, 0));
                }
                return Err(e);
            },
        };
        let mut max = min;
        let mut i: usize = 1;
        proof {
            assert(ok_points2(points@)[0] == min);
            assert(views2(ok_points2(points@))[0] == min@);
        }
        while i < points.len()
            invariant
                1 <= i <= points.len(),
                forall|j: int| 0 <= j < i ==> (#[trigger] points@[j]) is Ok,
                tight_bounds_of_first2(views2(ok_points2(points@)), i as int, min@, max@),
            decreases points.len() - i,
        {
            let point = match points[i] {
                Ok(p) => p,
                Err(e) => {
                    proof {
                        assert(first_err_at2(points@, i as int));
                    }
                    return Err(e);
                },
            };
            let ghost pts = views2(ok_points2(points@));
            let ghost old_min = min;
            let ghost old_max = max;
            min = point.min(min);
            max = point.max(max);
            proof {
                assert(ok_points2(points@)[i as int] == point);
                assert(pts[i as int] == point@);
                assert forall|j: int| 0 <= j < i + 1 implies (#[trigger] pts[j]).between(
                    min@,
                    max@,
                ) by {
                    if j < i {
                        assert(pts[j].between(old_min@, old_max@));
                    }
                }
                let w = choose|j: int| 0 <= j < i && (#[trigger] pts[j]).x == old_min@.x;
                assert(pts[w].x == min@.x || pts[i as int].x == min@.x);
                let w = choose|j: int| 0 <= j < i && (#[trigger] pts[j]).y == old_min@.y;
                assert(pts[w].y == min@.y || pts[i as int].y == min@.y);
                let w = choose|j: int| 0 <= j < i && (#[trigger] pts[j]).x == old_max@.x;
                assert(pts[w].x == max@.x || pts[i as int].x == max@.x);
                let w = choose|j: int| 0 <= j < i && (#[trigger] pts[j]).y == old_max@.y;
                assert(pts[w].y == max@.y || pts[i as int].y == max@.y);
            }
            i = i + 1;
        }
        Ok(Self::new(min, max))
    }

    /// The same box over another scalar type, or nothing when a coordinate is
    /// not representable there.
    pub fn try_cast<NewT: Scalar>(self) -> (r: Option<Box2<NewT, U>>)
        ensures
            r.is_some() <==> (castable::<NewT>(self.min@.x) && castable::<NewT>(self.min@.y) && castable::<NewT>(
                self.max@.x,
            ) && castable::<NewT>(
                self.max@.y,
            )),
            r matches Some(c) ==> c.min@ == self.min@ && c.max@ == self.max@,
    {
        match (self.min.try_cast(), self.max.try_cast()) {
            (Some(min), Some(max)) => Some(Box2::new(min, max)),
            _ => None,
        }
    }

    /// The same box over another scalar type, which must be able to represent
    /// every coordinate.
    pub fn cast<NewT: Scalar>(self) -> (r: Box2<NewT, U>)
        requires
            castable::<NewT>(self.min@.x),
            castable::<NewT>(self.min@.y),
            castable::<NewT>(self.max@.x),
            castable::<NewT>(self.max@.y),
        ensures
            r.min@ == self.min@,
            r.max@ == self.max@,
    {
        Box2::new(self.min.cast(), self.max.cast())
    }

    /// The box whose corners are the blends of the corners of `self` and `other`.
    pub fn lerp(&self, other: &Self, t: T) -> (r: Self)
        requires
            lerp_fits::<T>(self.min@.x, other.min@.x, t.val()),
            lerp_fits::<T>(self.min@.y, other.min@.y, t.val()),
            lerp_fits::<T>(self.max@.x, other.max@.x, t.val()),
            lerp_fits::<T>(self.max@.y, other.max@.y, t.val()),
        ensures
            r.min@ == self.min@.lerp(other.min@, t.val()),
            r.max@ == self.max@.lerp(other.max@, t.val()),
    {
        let min = self.min.lerp(other.min, t);
        let max = self.max.lerp(other.max, t);
        Self::new(min, max)
    }
}

impl<T: Copy + Ceil + Floor, U> Box2<T, U> {
    /// The box with its low corner rounded up and its high corner rounded
    /// down: it lies inside the original.
    pub fn round_in(&self) -> (r: Self)
        ensures
            r.min == self.min.ceil_spec(),
            r.max == self.max.floor_spec(),
    {
        Self::new(self.min.ceil(), self.max.floor())
    }

    /// The box with its low corner rounded down and its high corner rounded
    /// up: the original lies inside it.
    pub fn round_out(&self) -> (r: Self)
        ensures
            r.min == self.min.floor_spec(),
            r.max == self.max.ceil_spec(),
    {
        Self::new(self.min.floor(), self.max.ceil())
    }
}

impl<T: Scalar, U> FromSpecImpl<Size2<T, U>> for Box2<T, U> {
    open spec fn obeys_from_spec() -> bool {
        true
    }

    open spec fn from_spec(size: Size2<T, U>) -> Self {
        Box2 {
            min: Point2 { x: T::of_int(0), y: T::of_int(0), _unit: PhantomData },
            max: Point2 { x: size.x, y: size.y, _unit: PhantomData },
        }
    }
}

/// The box from the origin to the corner given by the size.
impl<T: Scalar, U> From<Size2<T, U>> for Box2<T, U> {
    fn from(size: Size2<T, U>) -> (r: Self)
        ensures
            r.min@ == Vec2::zero(),
            r.max@ == size@,
    {
        let r = Self::from_size(size);
        proof {
            lemma_is_of_int(r.min.x);
            lemma_is_of_int(r.min.y);
            r.max.x.lemma_val_injective(size.x);
            r.max.y.lemma_val_injective(size.y);
        }
        r
    }
}

impl<T: Scalar, U> MulSpecImpl<T> for Box2<T, U> {
    open spec fn obeys_mul_spec() -> bool {
        true
    }

    open spec fn mul_req(self, rhs: T) -> bool {
        self.min@.scale(rhs.val()).fits::<T>() && self.max@.scale(rhs.val()).fits::<T>()
    }

    open spec fn mul_spec(self, rhs: T) -> Box2<T, U> {
        Box2 {
            min: Point2 {
                x: T::of_int(self.min.x.val() * rhs.val()),
                y: T::of_int(self.min.y.val() * rhs.val()),
                _unit: PhantomData,
            },
            max: Point2 {
                x: T::of_int(self.max.x.val() * rhs.val()),
                y: T::of_int(self.max.y.val() * rhs.val()),
                _unit: PhantomData,
            },
        }
    }
}

/// Both corners scaled by the factor.
impl<T: Scalar, U> Mul<T> for Box2<T, U> {
    type Output = Box2<T, U>;

    fn mul(self, rhs: T) -> (r: Box2<T, U>)
        ensures
            r.min@ == self.min@.scale(rhs.val()),
            r.max@ == self.max@.scale(rhs.val()),
    {
        let r = Box2::new(self.min * rhs, self.max * rhs);
        proof {
            lemma_is_of_int(r.min.x);
            lemma_is_of_int(r.min.y);
            lemma_is_of_int(r.max.x);
            lemma_is_of_int(r.max.y);
        }
        r
    }
}

impl<T: Scalar, U> DivSpecImpl<T> for Box2<T, U> {
    open spec fn obeys_div_spec() -> bool {
        true
    }

    open spec fn div_req(self, rhs: T) -> bool {
        rhs.val() != 0 && self.min@.div(rhs.val()).fits::<T>() && self.max@.div(rhs.val()).fits::<
            T,
        >()
    }

    open spec fn div_spec(self, rhs: T) -> Box2<T, U> {
        Box2 {
            min: Point2 {
                x: T::of_int(trunc_div(self.min.x.val(), rhs.val())),
                y: T::of_int(trunc_div(self.min.y.val(), rhs.val())),
                _unit: PhantomData,
            },
            max: Point2 {
                x: T::of_int(trunc_div(self.max.x.val(), rhs.val())),
                y: T::of_int(trunc_div(self.max.y.val(), rhs.val())),
                _unit: PhantomData,
            },
        }
    }
}

/// Both corners divided by the factor, rounding toward zero.
impl<T: Scalar, U> Div<T> for Box2<T, U> {
    type Output = Box2<T, U>;

    fn div(self, rhs: T) -> (r: Box2<T, U>)
        ensures
            r.min@ == self.min@.div(rhs.val()),
            r.max@ == self.max@.div(rhs.val()),
    {
        let r = Box2::new(self.min / rhs, self.max / rhs);
        proof {
            lemma_is_of_int(r.min.x);
            lemma_is_of_int(r.min.y);
            lemma_is_of_int(r.max.x);
            lemma_is_of_int(r.max.y);
        }
        r
    }
}

/// An axis-aligned box in space `U`, given by its lowest and highest corner.
/// The box holds the points from `min` up to, but not including, `max`.
#[derive(Debug, Hash)]
pub struct Box3<T, U> {
    pub min: Point3<T, U>,
    pub max: Point3<T, U>,
}

impl<T: Copy, U> Copy for Box3<T, U> {
}

impl<T: Copy, U> Clone for Box3<T, U> {
    fn clone(&self) -> (r: Self)
        ensures
            r == *self,
    {
        *self
    }
}

impl<T: Scalar, U> PartialEqSpecImpl for Box3<T, U> {
    open spec fn obeys_eq_spec() -> bool {
        true
    }

    open spec fn eq_spec(&self, other: &Self) -> bool {
        self.min@ == other.min@ && self.max@ == other.max@
    }
}

impl<T: Scalar, U> PartialEq for Box3<T, U> {
    fn eq(&self, other: &Self) -> (r: bool) {
        self.min == other.min && self.max == other.max
    }
}

impl<T: Scalar, U> Eq for Box3<T, U> {
}

/// The integer views of a sequence of points, in order.
pub open spec fn views3<T: Scalar, U>(points: Seq<Point3<T, U>>) -> Seq<Vec3> {
    Seq::new(points.len(), |i: int| points[i]@)
}

/// The points of a sequence of results, where every one is present.
pub open spec fn ok_points3<T, U, E>(points: Seq<Result<Point3<T, U>, E>>) -> Seq<Point3<T, U>> {
    Seq::new(points.len(), |i: int| points[i]->Ok_0)
}

/// Index of the first failure in a sequence of results, if `k` is it.
pub open spec fn first_err_at3<T, U, E>(points: Seq<Result<Point3<T, U>, E>>, k: int) -> bool {
    &&& 0 <= k < points.len()
    &&& points[k] is Err
    &&& forall|j: int| 0 <= j < k ==> (#[trigger] points[j]) is Ok
}

impl<T, U> Box3<T, U> {
    pub fn new(min: Point3<T, U>, max: Point3<T, U>) -> (r: Self)
        ensures
            r.min == min,
            r.max == max,
    {
        Self { min, max }
    }
}

impl<T: Scalar, U> Box3<T, U> {
    /// The box is empty when it is not strictly positive along every axis.
    pub open spec fn is_empty_spec(&self) -> bool {
        !(self.max@.x > self.min@.x && self.max@.y > self.min@.y && self.max@.z > self.min@.z)
    }

    /// Whether `p` lies in the half-open box.
    pub open spec fn contains_spec(&self, p: Vec3) -> bool {
        self.min@.x <= p.x < self.max@.x
            && self.min@.y <= p.y < self.max@.y
            && self.min@.z <= p.z < self.max@.z
    }

    /// The smallest box around two boxes, an empty one counting for nothing.
    pub open spec fn union_spec(&self, other: &Self) -> Self {
        if other.is_empty_spec() {
            *self
        } else if self.is_empty_spec() {
            *other
        } else {
            Box3 {
                min: Point3 {
                    x: if self.min@.x <= other.min@.x { self.min.x } else { other.min.x },
                    y: if self.min@.y <= other.min@.y { self.min.y } else { other.min.y },
                    z: if self.min@.z <= other.min@.z { self.min.z } else { other.min.z },
                    _unit: self.min._unit,
                },
                max: Point3 {
                    x: if self.max@.x >= other.max@.x { self.max.x } else { other.max.x },
                    y: if self.max@.y >= other.max@.y { self.max.y } else { other.max.y },
                    z: if self.max@.z >= other.max@.z { self.max.z } else { other.max.z },
                    _unit: self.max._unit,
                },
            }
        }
    }

    /// The union of two boxes holds every point that either of them holds.
    pub proof fn lemma_union_holds_both(&self, other: &Self, p: Vec3)
        requires
            self.contains_spec(p) || other.contains_spec(p),
        ensures
            self.union_spec(other).contains_spec(p),
    {
    }

    /// The box between the higher of the low corners and the lower of the
    /// high corners holds exactly the points that both boxes hold.
    pub proof fn lemma_intersection_holds_common(&self, other: &Self, common: &Self, p: Vec3)
        requires
            common.min@ == self.min@.max(other.min@),
            common.max@ == self.max@.min(other.max@),
        ensures
            common.contains_spec(p) <==> self.contains_spec(p) && other.contains_spec(p),
            common.is_empty_spec() <==> forall|q: Vec3|
                !(self.contains_spec(q) && other.contains_spec(q)),
    {
        if !common.is_empty_spec() {
            assert(self.contains_spec(common.min@) && other.contains_spec(common.min@));
        }
        assert forall|q: Vec3| common.is_empty_spec() implies !(self.contains_spec(q)
            && other.contains_spec(q)) by {}
    }

    /// A box moved by `by` holds exactly the points of the original moved by
    /// `by`.
    pub proof fn lemma_translate_moves_points(&self, moved: &Self, by: Vec3, p: Vec3)
        requires
            moved.min@ == self.min@.add(by),
            moved.max@ == self.max@.add(by),
        ensures
            moved.contains_spec(p.add(by)) <==> self.contains_spec(p),
            moved.is_empty_spec() <==> self.is_empty_spec(),
    {
    }

    /// A box is empty exactly when it holds no point.
    pub proof fn lemma_empty_holds_nothing(&self)
        ensures
            self.is_empty_spec() <==> forall|p: Vec3| !self.contains_spec(p),
    {
        if !self.is_empty_spec() {
            assert(self.contains_spec(self.min@));
        }
    }

    /// The box from the origin to the origin.
    pub fn empty() -> (r: Self)
        ensures
            r.min@ == Vec3::zero(),
            r.max@ == Vec3::zero(),
    {
        Self::new(Point3::zero(), Point3::zero())
    }

    /// The box from the origin to the corner given by `size`.
    pub fn from_size(size: Size3<T, U>) -> (r: Self)
        ensures
            r.min@ == Vec3::zero(),
            r.max@ == size@,
    {
        Self::new(Point3::zero(), Point3::new(size.x, size.y, size.z))
    }

    pub fn is_empty(&self) -> (r: bool)
        ensures
            r == self.is_empty_spec(),
    {
        !(self.max.x.gt(self.min.x) && self.max.y.gt(self.min.y) && self.max.z.gt(self.min.z))
    }

    /// Whether the two boxes share a point.
    pub fn intersects(&self, other: &Self) -> (r: bool)
        ensures
            r == (
                self.min@.x < other.max@.x
                && other.min@.x < self.max@.x
                && self.min@.y < other.max@.y
                && other.min@.y < self.max@.y
                && self.min@.z < other.max@.z
                && other.min@.z < self.max@.z
            ),
    {
        self.min.x.lt(other.max.x) && other.min.x.lt(self.max.x)
            && self.min.y.lt(other.max.y) && other.min.y.lt(self.max.y)
            && self.min.z.lt(other.max.z) && other.min.z.lt(self.max.z)
    }

    /// Whether `p` lies in the box: at or above `min`, strictly below `max`.
    pub fn contains(&self, p: Point3<T, U>) -> (r: bool)
        ensures
            r == self.contains_spec(p@),
    {
        self.min.x.le(p.x) && p.x.lt(self.max.x)
            && self.min.y.le(p.y) && p.y.lt(self.max.y)
            && self.min.z.le(p.z) && p.z.lt(self.max.z)
    }

    /// Whether `other` lies inside this box. An empty box lies inside every box.
    pub fn contains_box(&self, other: &Self) -> (r: bool)
        ensures
            r == (other.is_empty_spec() || (self.min@.x <= other.min@.x && other.max@.x <= self.max@.x && self.min@.y <= other.min@.y && other.max@.y <= self.max@.y && self.min@.z <= other.min@.z && other.max@.z <= self.max@.z)),
    {
        other.is_empty() || (self.min.x.le(other.min.x) && other.max.x.le(self.max.x)
            && self.min.y.le(other.min.y) && other.max.y.le(self.max.y)
            && self.min.z.le(other.min.z) && other.max.z.le(self.max.z))
    }

    /// The same corners with the space forgotten.
    pub fn erase_unit(&self) -> (r: Box3<T, UnknownUnit>)
        ensures
            r.min@ == self.min@,
            r.max@ == self.max@,
    {
        Box3::new(self.min.erase_unit(), self.max.erase_unit())
    }

    /// The box moved by `by`.
    pub fn translate(&self, by: Vector3<T, U>) -> (r: Self)
        requires
            self.min@.add(by@).fits::<T>(),
            self.max@.add(by@).fits::<T>(),
        ensures
            r.min@ == self.min@.add(by@),
            r.max@ == self.max@.add(by@),
    {
        Self::new(self.min + by, self.max + by)
    }

    /// The box grown by the given amounts on both sides of each axis.
    pub fn inflate(&self, dx: T, dy: T, dz: T) -> (r: Self)
        requires
            self.min@.sub(Vec3 { x: dx.val(), y: dy.val(), z: dz.val() }).fits::<T>(),
            self.max@.add(Vec3 { x: dx.val(), y: dy.val(), z: dz.val() }).fits::<T>(),
        ensures
            r.min@ == self.min@.sub(Vec3 { x: dx.val(), y: dy.val(), z: dz.val() }),
            r.max@ == self.max@.add(Vec3 { x: dx.val(), y: dy.val(), z: dz.val() }),
    {
        let p = Vector3::new(dx, dy, dz);
        Self::new(self.min - p, self.max + p)
    }

    /// The half-open interval the box covers along `axis`.
    pub fn range(&self, axis: Axis3) -> (r: Range<T>)
        ensures
            r.start == self.min.get_spec(axis),
            r.end == self.max.get_spec(axis),
    {
        self.min.get(axis)..self.max.get(axis)
    }

    /// The midpoint of the two corners, each coordinate rounded toward zero.
    pub fn center(&self) -> (r: Point3<T, U>)
        requires
            T::fits(2),
            self.min@.add(self.max@).fits::<T>(),
            self.min@.add(self.max@).div(2).fits::<T>(),
        ensures
            r@ == self.min@.add(self.max@).div(2),
    {
        let two = T::one().add(T::one());
        (self.min + self.max.to_vector()) / two
    }

    /// The extent along `axis`.
    pub fn length(&self, axis: Axis3) -> (r: Length<T, U>)
        requires
            T::fits(self.max.get_spec(axis).val() - self.min.get_spec(axis).val()),
        ensures
            r@ == self.max.get_spec(axis).val() - self.min.get_spec(axis).val(),
    {
        let raw = self.max.get(axis).sub(self.min.get(axis));
        Length::new(raw)
    }

    /// The extents along all axes.
    pub fn size(&self) -> (r: Size3<T, U>)
        requires
            self.max@.sub(self.min@).fits::<T>(),
        ensures
            r@ == self.max@.sub(self.min@),
    {
        (self.max - self.min).to_size()
    }

    /// The area of the face spanned by the two given axes.
    pub fn area(&self, axis1: Axis3, axis2: Axis3) -> (r: T)
        requires
            T::fits(self.max.get_spec(axis1).val() - self.min.get_spec(axis1).val()),
            T::fits(self.max.get_spec(axis2).val() - self.min.get_spec(axis2).val()),
            T::fits(
                (self.max.get_spec(axis1).val() - self.min.get_spec(axis1).val()) * (
                self.max.get_spec(axis2).val() - self.min.get_spec(axis2).val()),
            ),
        ensures
            r.val() == (self.max.get_spec(axis1).val() - self.min.get_spec(axis1).val()) * (
            self.max.get_spec(axis2).val() - self.min.get_spec(axis2).val()),
    {
        self.max.get(axis1).sub(self.min.get(axis1)).mul(
            self.max.get(axis2).sub(self.min.get(axis2)),
        )
    }

    /// The product of the three extents.
    pub fn volume(&self) -> (r: T)
        requires
            self.max@.sub(self.min@).fits::<T>(),
            prod3_fits::<T>(
                self.max@.x - self.min@.x,
                self.max@.y - self.min@.y,
                self.max@.z - self.min@.z,
            ),
        ensures
            r.val() == (self.max@.x - self.min@.x) * (self.max@.y - self.min@.y) * (self.max@.z
                - self.min@.z),
    {
        let size = self.size();
        prod3(size.x, size.y, size.z)
    }

    /// The smallest box around both boxes. An empty box adds nothing.
    pub fn union(&self, other: &Self) -> (r: Self)
        ensures
            r == self.union_spec(other),
    {
        if other.is_empty() {
            *self
        } else if self.is_empty() {
            *other
        } else {
            let r = Self { min: self.min.min(other.min), max: self.max.max(other.max) };
            proof {
                r.min.lemma_view_injective(self.union_spec(other).min);
                r.max.lemma_view_injective(self.union_spec(other).max);
            }
            r
        }
    }

    /// The box common to both, or nothing when they share no point.
    pub fn intersection(&self, other: &Self) -> (r: Option<Self>)
        ensures
            match r {
                Some(b) => b.min@ == self.min@.max(other.min@) && b.max@ == self.max@.min(
                    other.max@,
                ) && !b.is_empty_spec(),
                None => !(
                    self.min@.max(other.min@).x < self.max@.min(other.max@).x
                    && self.min@.max(other.min@).y < self.max@.min(other.max@).y
                    && self.min@.max(other.min@).z < self.max@.min(other.max@).z
                ),
            },
    {
        let ret = self.intersection_unchecked(other);
        if !ret.is_empty() {
            Some(ret)
        } else {
            None
        }
    }

    /// The box between the higher of the low corners and the lower of the high
    /// corners. It is empty or inverted when the boxes share no point.
    pub fn intersection_unchecked(&self, other: &Self) -> (r: Self)
        ensures
            r.min@ == self.min@.max(other.min@),
            r.max@ == self.max@.min(other.max@),
    {
        Self { min: self.min.max(other.min), max: self.max.min(other.max) }
    }

    /// The tight bounding box of `points`: the smallest axis-aligned box that
    /// reaches every one of them. With no points, the empty box at the origin.
    pub fn from_points(points: &[Point3<T, U>]) -> (r: Self)
        ensures
            points@.len() == 0 ==> r.min@ == Vec3::zero() && r.max@ == Vec3::zero(),
            points@.len() > 0 ==> tight_bounds3(views3(points@), r.min@, r.max@),
    {
        if points.len() == 0 {
            return Self::empty();
        }
        let mut min = points[0];
        let mut max = min;
        let mut i: usize = 1;
        proof {
            assert(views3(points@)[0] == min@);
        }
        while i < points.len()
            invariant
                1 <= i <= points.len(),
                tight_bounds_of_first3(views3(points@), i as int, min@, max@),
            decreases points.len() - i,
        {
            let point = points[i];
            let ghost old_min = min;
            let ghost old_max = max;
            min = point.min(min);
            max = point.max(max);
            proof {
                let pts = views3(points@);
                assert(pts[i as int] == point@);
                assert forall|j: int| 0 <= j < i + 1 implies (#[trigger] pts[j]).between(
                    min@,
                    max@,
                ) by {
                    if j < i {
                        assert(pts[j].between(old_min@, old_max@));
                    }
                }
                let w = choose|j: int| 0 <= j < i && (#[trigger] pts[j]).x == old_min@.x;
                assert(pts[w].x == min@.x || pts[i as int].x == min@.x);
                let w = choose|j: int| 0 <= j < i && (#[trigger] pts[j]).y == old_min@.y;
                assert(pts[w].y == min@.y || pts[i as int].y == min@.y);
                let w = choose|j: int| 0 <= j < i && (#[trigger] pts[j]).z == old_min@.z;
                assert(pts[w].z == min@.z || pts[i as int].z == min@.z);
                let w = choose|j: int| 0 <= j < i && (#[trigger] pts[j]).x == old_max@.x;
                assert(pts[w].x == max@.x || pts[i as int].x == max@.x);
                let w = choose|j: int| 0 <= j < i && (#[trigger] pts[j]).y == old_max@.y;
                assert(pts[w].y == max@.y || pts[i as int].y == max@.y);
                let w = choose|j: int| 0 <= j < i && (#[trigger] pts[j]).z == old_max@.z;
                assert(pts[w].z == max@.z || pts[i as int].z == max@.z);
            }
            i = i + 1;
        }
        Self::new(min, max)
    }

    /// The tight bounding box of `points`, unless one of them is missing: then
    /// the first failure, in the order given, is returned.
    pub fn try_from_points<E: Copy>(points: &[Result<Point3<T, U>, E>]) -> (r: Result<Self, E>)
        ensures
            match r {
                Ok(b) => {
                    &&& forall|j: int| 0 <= j < points@.len() ==> (#[trigger] points@[j]) is Ok
                    &&& points@.len() == 0 ==> b.min@ == Vec3::zero() && b.max@ == Vec3::zero()
                    &&& points@.len() > 0
                        ==> tight_bounds3(views3(ok_points3(points@)), b.min@, b.max@)
                },
                Err(e) => exists|k: int| first_err_at3(points@, k)
                    && #[trigger] points@[k] == Err::<
                    Point3<T, U>,
                    E,
                >(e),
            },
    {
        if points.len() == 0 {
            return Ok(Self::empty());
        }
        let mut min = match points[0] {
            Ok(p) => p,
            Err(e) => {
                proof {
                    assert(first_err_at3(points@, 0));
                }
                return Err(e);
            },
        };
        let mut max = min;
        let mut i: usize = 1;
        proof {
            assert(ok_points3(points@)[0] == min);
            assert(views3(ok_points3(points@))[0] == min@);
        }
        while i < points.len()
            invariant
                1 <= i <= points.len(),
                forall|j: int| 0 <= j < i ==> (#[trigger] points@[j]) is Ok,
                tight_bounds_of_first3(views3(ok_points3(points@)), i as int, min@, max@),
            decreases points.len() - i,
        {
            let point = match points[i] {
                Ok(p) => p,
                Err(e) => {
                    proof {
                        assert(first_err_at3(points@, i as int));
                    }
                    return Err(e);
                },
            };
            let ghost pts = views3(ok_points3(points@));
            let ghost old_min = min;
            let ghost old_max = max;
            min = point.min(min);
            max = point.max(max);
            proof {
                assert(ok_points3(points@)[i as int] == point);
                assert(pts[i as int] == point@);
                assert forall|j: int| 0 <= j < i + 1 implies (#[trigger] pts[j]).between(
                    min@,
                    max@,
                ) by {
                    if j < i {
                        assert(pts[j].between(old_min@, old_max@));
                    }
                }
                let w = choose|j: int| 0 <= j < i && (#[trigger] pts[j]).x == old_min@.x;
                assert(pts[w].x == min@.x || pts[i as int].x == min@.x);
                let w = choose|j: int| 0 <= j < i && (#[trigger] pts[j]).y == old_min@.y;
                assert(pts[w].y == min@.y || pts[i as int].y == min@.y);
                let w = choose|j: int| 0 <= j < i && (#[trigger] pts[j]).z == old_min@.z;
                assert(pts[w].z == min@.z || pts[i as int].z == min@.z);
                let w = choose|j: int| 0 <= j < i && (#[trigger] pts[j]).x == old_max@.x;
                assert(pts[w].x == max@.x || pts[i as int].x == max@.x);
                let w = choose|j: int| 0 <= j < i && (#[trigger] pts[j]).y == old_max@.y;
                assert(pts[w].y == max@.y || pts[i as int].y == max@.y);
                let w = choose|j: int| 0 <= j < i && (#[trigger] pts[j]).z == old_max@.z;
                assert(pts[w].z == max@.z || pts[i as int].z == max@.z);
            }
            i = i + 1;
        }
        Ok(Self::new(min, max))
    }

    /// The same box over another scalar type, or nothing when a coordinate is
    /// not representable there.
    pub fn try_cast<NewT: Scalar>(self) -> (r: Option<Box3<NewT, U>>)
        ensures
            r.is_some() <==> (castable::<NewT>(self.min@.x) && castable::<NewT>(self.min@.y) && castable::<NewT>(self.min@.z) && castable::<NewT>(
                self.max@.x,
            ) && castable::<NewT>(
                self.max@.y,
            ) && castable::<NewT>(
                self.max@.z,
            )),
            r matches Some(c) ==> c.min@ == self.min@ && c.max@ == self.max@,
    {
        match (self.min.try_cast(), self.max.try_cast()) {
            (Some(min), Some(max)) => Some(Box3::new(min, max)),
            _ => None,
        }
    }

    /// The same box over another scalar type, which must be able to represent
    /// every coordinate.
    pub fn cast<NewT: Scalar>(self) -> (r: Box3<NewT, U>)
        requires
            castable::<NewT>(self.min@.x),
            castable::<NewT>(self.min@.y),
            castable::<NewT>(self.min@.z),
            castable::<NewT>(self.max@.x),
            castable::<NewT>(self.max@.y),
            castable::<NewT>(self.max@.z),
        ensures
            r.min@ == self.min@,
            r.max@ == self.max@,
    {
        Box3::new(self.min.cast(), self.max.cast())
    }

    /// The box whose corners are the blends of the corners of `self` and `other`.
    pub fn lerp(&self, other: &Self, t: T) -> (r: Self)
        requires
            lerp_fits::<T>(self.min@.x, other.min@.x, t.val()),
            lerp_fits::<T>(self.min@.y, other.min@.y, t.val()),
            lerp_fits::<T>(self.min@.z, other.min@.z, t.val()),
            lerp_fits::<T>(self.max@.x, other.max@.x, t.val()),
            lerp_fits::<T>(self.max@.y, other.max@.y, t.val()),
            lerp_fits::<T>(self.max@.z, other.max@.z, t.val()),
        ensures
            r.min@ == self.min@.lerp(other.min@, t.val()),
            r.max@ == self.max@.lerp(other.max@, t.val()),
    {
        let min = self.min.lerp(other.min, t);
        let max = self.max.lerp(other.max, t);
        Self::new(min, max)
    }
}

impl<T: Copy + Ceil + Floor, U> Box3<T, U> {
    /// The box with its low corner rounded up and its high corner rounded
    /// down: it lies inside the original.
    pub fn round_in(&self) -> (r: Self)
        ensures
            r.min == self.min.ceil_spec(),
            r.max == self.max.floor_spec(),
    {
        Self::new(self.min.ceil(), self.max.floor())
    }

    /// The box with its low corner rounded down and its high corner rounded
    /// up: the original lies inside it.
    pub fn round_out(&self) -> (r: Self)
        ensures
            r.min == self.min.floor_spec(),
            r.max == self.max.ceil_spec(),
    {
        Self::new(self.min.floor(), self.max.ceil())
    }
}

impl<T: Scalar, U> FromSpecImpl<Size3<T, U>> for Box3<T, U> {
    open spec fn obeys_from_spec() -> bool {
        true
    }

    open spec fn from_spec(size: Size3<T, U>) -> Self {
        Box3 {
            min: Point3 { x: T::of_int(0), y: T::of_int(0), z: T::of_int(0), _unit: PhantomData },
            max: Point3 { x: size.x, y: size.y, z: size.z, _unit: PhantomData },
        }
    }
}

/// The box from the origin to the corner given by the size.
impl<T: Scalar, U> From<Size3<T, U>> for Box3<T, U> {
    fn from(size: Size3<T, U>) -> (r: Self)
        ensures
            r.min@ == Vec3::zero(),
            r.max@ == size@,
    {
        let r = Self::from_size(size);
        proof {
            lemma_is_of_int(r.min.x);
            lemma_is_of_int(r.min.y);
            lemma_is_of_int(r.min.z);
            r.max.x.lemma_val_injective(size.x);
            r.max.y.lemma_val_injective(size.y);
            r.max.z.lemma_val_injective(size.z);
        }
        r
    }
}

impl<T: Scalar, U> MulSpecImpl<T> for Box3<T, U> {
    open spec fn obeys_mul_spec() -> bool {
        true
    }

    open spec fn mul_req(self, rhs: T) -> bool {
        self.min@.scale(rhs.val()).fits::<T>() && self.max@.scale(rhs.val()).fits::<T>()
    }

    open spec fn mul_spec(self, rhs: T) -> Box3<T, U> {
        Box3 {
            min: Point3 {
                x: T::of_int(self.min.x.val() * rhs.val()),
                y: T::of_int(self.min.y.val() * rhs.val()),
                z: T::of_int(self.min.z.val() * rhs.val()),
                _unit: PhantomData,
            },
            max: Point3 {
                x: T::of_int(self.max.x.val() * rhs.val()),
                y: T::of_int(self.max.y.val() * rhs.val()),
                z: T::of_int(self.max.z.val() * rhs.val()),
                _unit: PhantomData,
            },
        }
    }
}

/// Both corners scaled by the factor.
impl<T: Scalar, U> Mul<T> for Box3<T, U> {
    type Output = Box3<T, U>;

    fn mul(self, rhs: T) -> (r: Box3<T, U>)
        ensures
            r.min@ == self.min@.scale(rhs.val()),
            r.max@ == self.max@.scale(rhs.val()),
    {
        let r = Box3::new(self.min * rhs, self.max * rhs);
        proof {
            lemma_is_of_int(r.min.x);
            lemma_is_of_int(r.min.y);
            lemma_is_of_int(r.min.z);
            lemma_is_of_int(r.max.x);
            lemma_is_of_int(r.max.y);
            lemma_is_of_int(r.max.z);
        }
        r
    }
}

impl<T: Scalar, U> DivSpecImpl<T> for Box3<T, U> {
    open spec fn obeys_div_spec() -> bool {
        true
    }

    open spec fn div_req(self, rhs: T) -> bool {
        rhs.val() != 0 && self.min@.div(rhs.val()).fits::<T>() && self.max@.div(rhs.val()).fits::<
            T,
        >()
    }

    open spec fn div_spec(self, rhs: T) -> Box3<T, U> {
        Box3 {
            min: Point3 {
                x: T::of_int(trunc_div(self.min.x.val(), rhs.val())),
                y: T::of_int(trunc_div(self.min.y.val(), rhs.val())),
                z: T::of_int(trunc_div(self.min.z.val(), rhs.val())),
                _unit: PhantomData,
            },
            max: Point3 {
                x: T::of_int(trunc_div(self.max.x.val(), rhs.val())),
                y: T::of_int(trunc_div(self.max.y.val(), rhs.val())),
                z: T::of_int(trunc_div(self.max.z.val(), rhs.val())),
                _unit: PhantomData,
            },
        }
    }
}

/// Both corners divided by the factor, rounding toward zero.
impl<T: Scalar, U> Div<T> for Box3<T, U> {
    type Output = Box3<T, U>;

    fn div(self, rhs: T) -> (r: Box3<T, U>)
        ensures
            r.min@ == self.min@.div(rhs.val()),
            r.max@ == self.max@.div(rhs.val()),
    {
        let r = Box3::new(self.min / rhs, self.max / rhs);
        proof {
            lemma_is_of_int(r.min.x);
            lemma_is_of_int(r.min.y);
            lemma_is_of_int(r.min.z);
            lemma_is_of_int(r.max.x);
            lemma_is_of_int(r.max.y);
            lemma_is_of_int(r.max.z);
        }
        r
    }
}

} // verus!

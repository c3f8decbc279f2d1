//! Pure offsets between two spaces.
use vstd::prelude::*;
use vstd::std_specs::cmp::PartialEqSpecImpl;
use vstd::std_specs::convert::FromSpecImpl;
use vstd::std_specs::ops::{AddSpecImpl, SubSpecImpl};
use std::marker::PhantomData;
use std::ops::{Add, Sub};
use crate::bounds::{Box2, Box3};
use crate::model::{Vec2, Vec3};
use crate::num::{lemma_is_of_int, Scalar, Zero};
use crate::point::{Point2, Point3};
use crate::size::{Size2, Size3};
use crate::space::Normal;
use crate::transform::{Transform, Transformation};
use crate::vector::{Vector2, Vector3};

verus! {

/// The map that moves every point of `Src` space by a fixed offset into `Dst`
/// space.
#[derive(Debug, Hash)]
pub struct Translation2<T, Src, Dst> {
    pub x: T,
    pub y: T,
    pub _unit: PhantomData<(Src, Dst)>,
}

/// The map that moves every point of `Src` space by a fixed offset into `Dst`
/// space.
#[derive(Debug, Hash)]
pub struct Translation3<T, Src, Dst> {
    pub x: T,
    pub y: T,
    pub z: T,
    pub _unit: PhantomData<(Src, Dst)>,
}

impl<T: Copy, Src, Dst> Copy for Translation2<T, Src, Dst> {
}

impl<T: Copy, Src, Dst> Clone for Translation2<T, Src, Dst> {
    fn clone(&self) -> (r: Self)
        ensures
            r == *self,
    {
        *self
    }
}

impl<T: Copy, Src, Dst> Copy for Translation3<T, Src, Dst> {
}

impl<T: Copy, Src, Dst> Clone for Translation3<T, Src, Dst> {
    fn clone(&self) -> (r: Self)
        ensures
            r == *self,
    {
        *self
    }
}

impl<T: Scalar, Src, Dst> View for Translation2<T, Src, Dst> {
    type V = Vec2;

    /// The offset, as integers.
    open spec fn view(&self) -> Vec2 {
        Vec2 { x: self.x.val(), y: self.y.val() }
    }
}

impl<T: Scalar, Src, Dst> View for Translation3<T, Src, Dst> {
    type V = Vec3;

    /// The offset, as integers.
    open spec fn view(&self) -> Vec3 {
        Vec3 { x: self.x.val(), y: self.y.val(), z: self.z.val() }
    }
}

impl<T: Scalar, Src, Dst> PartialEqSpecImpl for Translation2<T, Src, Dst> {
    open spec fn obeys_eq_spec() -> bool {
        true
    }

    open spec fn eq_spec(&self, other: &Self) -> bool {
        self@ == other@
    }
}

impl<T: Scalar, Src, Dst> PartialEq for Translation2<T, Src, Dst> {
    fn eq(&self, other: &Self) -> (r: bool) {
        self.x.eq(other.x) && self.y.eq(other.y)
    }
}

impl<T: Scalar, Src, Dst> Eq for Translation2<T, Src, Dst> {
}

impl<T: Scalar, Src, Dst> PartialEqSpecImpl for Translation3<T, Src, Dst> {
    open spec fn obeys_eq_spec() -> bool {
        true
    }

    open spec fn eq_spec(&self, other: &Self) -> bool {
        self@ == other@
    }
}

impl<T: Scalar, Src, Dst> PartialEq for Translation3<T, Src, Dst> {
    fn eq(&self, other: &Self) -> (r: bool) {
        self.x.eq(other.x) && self.y.eq(other.y) && self.z.eq(other.z)
    }
}

impl<T: Scalar, Src, Dst> Eq for Translation3<T, Src, Dst> {
}

impl<T: Scalar, Src, Dst> Zero for Translation2<T, Src, Dst> {
    open spec fn is_zero(&self) -> bool {
        self@ == Vec2::zero()
    }

    fn zero() -> (r: Self) {
        Self::new(T::zero(), T::zero())
    }
}

impl<T: Scalar, Src, Dst> Zero for Translation3<T, Src, Dst> {
    open spec fn is_zero(&self) -> bool {
        self@ == Vec3::zero()
    }

    fn zero() -> (r: Self) {
        Self::new(T::zero(), T::zero(), T::zero())
    }
}

impl<T, Src, Dst> Translation2<T, Src, Dst> {
    pub fn new(x: T, y: T) -> (r: Self)
        ensures
            r.x == x,
            r.y == y,
    {
        Self { x, y, _unit: PhantomData }
    }

    /// The translation by `v` along every axis.
    pub fn splat(v: T) -> (r: Self) where T: Copy
        ensures
            r.x == v,
            r.y == v,
    {
        Self::new(v, v)
    }

    /// The offset as a vector of the source space.
    pub fn to_vector(&self) -> (r: Vector2<T, Src>) where T: Copy
        ensures
            r.x == self.x,
            r.y == self.y,
    {
        Vector2::new(self.x, self.y)
    }
}

impl<T, Src, Dst> Translation3<T, Src, Dst> {
    pub fn new(x: T, y: T, z: T) -> (r: Self)
        ensures
            r.x == x,
            r.y == y,
            r.z == z,
    {
        Self { x, y, z, _unit: PhantomData }
    }

    /// The translation by `v` along every axis.
    pub fn splat(v: T) -> (r: Self) where T: Copy
        ensures
            r.x == v,
            r.y == v,
            r.z == v,
    {
        Self::new(v, v, v)
    }

    /// The offset as a vector of the source space.
    pub fn to_vector(&self) -> (r: Vector3<T, Src>) where T: Copy
        ensures
            r.x == self.x,
            r.y == self.y,
            r.z == self.z,
    {
        Vector3::new(self.x, self.y, self.z)
    }
}

impl<T: Scalar, Src, Dst> Transformation<T, Src, Dst> for Translation2<T, Src, Dst> {
    type Inverse = Translation2<T, Dst, Src>;

    open spec fn is_identity_spec(&self) -> bool {
        self@ == Vec2::zero()
    }

    open spec fn inverse_req(&self) -> bool {
        self@.neg().fits::<T>()
    }

    open spec fn inverse_ensures(&self, r: Translation2<T, Dst, Src>) -> bool {
        r@ == self@.neg()
    }

    fn identity() -> (r: Self) {
        Zero::zero()
    }

    fn is_identity(&self) -> (b: bool) {
        let zero = T::zero();
        self.x.eq(zero) && self.y.eq(zero)
    }

    /// The translation by the opposite offset.
    fn inverse(&self) -> (r: Translation2<T, Dst, Src>) {
        Translation2::new(self.x.neg(), self.y.neg())
    }
}

impl<T: Scalar, Src, Dst> Transformation<T, Src, Dst> for Translation3<T, Src, Dst> {
    type Inverse = Translation3<T, Dst, Src>;

    open spec fn is_identity_spec(&self) -> bool {
        self@ == Vec3::zero()
    }

    open spec fn inverse_req(&self) -> bool {
        self@.neg().fits::<T>()
    }

    open spec fn inverse_ensures(&self, r: Translation3<T, Dst, Src>) -> bool {
        r@ == self@.neg()
    }

    fn identity() -> (r: Self) {
        Zero::zero()
    }

    fn is_identity(&self) -> (b: bool) {
        let zero = T::zero();
        self.x.eq(zero) && self.y.eq(zero) && self.z.eq(zero)
    }

    /// The translation by the opposite offset.
    fn inverse(&self) -> (r: Translation3<T, Dst, Src>) {
        Translation3::new(self.x.neg(), self.y.neg(), self.z.neg())
    }
}

impl<T: Scalar, Src, Dst> Transform<Point2<T, Src>> for Translation2<T, Src, Dst> {
    type Output = Point2<T, Dst>;

    open spec fn transform_req(&self, p: Point2<T, Src>) -> bool {
        p@.add(self@).fits::<T>()
    }

    open spec fn transform_ensures(&self, p: Point2<T, Src>, r: Point2<T, Dst>) -> bool {
        r@ == p@.add(self@)
    }

    /// A point moves by the offset.
    fn transform(&self, p: Point2<T, Src>) -> (r: Point2<T, Dst>) {
        Point2::new(p.x.add(self.x), p.y.add(self.y))
    }
}

impl<T: Scalar, Src, Dst> Transform<Vector2<T, Src>> for Translation2<T, Src, Dst> {
    type Output = Vector2<T, Dst>;

    open spec fn transform_req(&self, v: Vector2<T, Src>) -> bool {
        true
    }

    open spec fn transform_ensures(&self, v: Vector2<T, Src>, r: Vector2<T, Dst>) -> bool {
        r@ == v@
    }

    /// A displacement is the same wherever it starts.
    fn transform(&self, v: Vector2<T, Src>) -> (r: Vector2<T, Dst>) {
        Vector2::new(v.x, v.y)
    }
}

impl<T: Scalar, Src, Dst> Transform<Vector2<T, Normal<Src>>> for Translation2<T, Src, Dst> {
    type Output = Vector2<T, Normal<Dst>>;

    open spec fn transform_req(&self, v: Vector2<T, Normal<Src>>) -> bool {
        true
    }

    open spec fn transform_ensures(
        &self,
        v: Vector2<T, Normal<Src>>,
        r: Vector2<T, Normal<Dst>>,
    ) -> bool {
        r@ == v@
    }

    /// A normal is the same wherever it is attached.
    fn transform(&self, v: Vector2<T, Normal<Src>>) -> (r: Vector2<T, Normal<Dst>>) {
        Vector2::new(v.x, v.y)
    }
}

impl<T: Scalar, Src, Dst> Transform<Box2<T, Src>> for Translation2<T, Src, Dst> {
    type Output = Box2<T, Dst>;

    open spec fn transform_req(&self, b: Box2<T, Src>) -> bool {
        b.min@.add(self@).fits::<T>() && b.max@.add(self@).fits::<T>()
    }

    open spec fn transform_ensures(&self, b: Box2<T, Src>, r: Box2<T, Dst>) -> bool {
        r.min@ == b.min@.add(self@) && r.max@ == b.max@.add(self@)
    }

    /// Both corners move by the offset.
    fn transform(&self, b: Box2<T, Src>) -> (r: Box2<T, Dst>) {
        Box2::new(self.transform(b.min), self.transform(b.max))
    }
}

impl<T: Scalar, Src, Dst> Transform<Size2<T, Src>> for Translation2<T, Src, Dst> {
    type Output = Size2<T, Dst>;

    open spec fn transform_req(&self, s: Size2<T, Src>) -> bool {
        true
    }

    open spec fn transform_ensures(&self, s: Size2<T, Src>, r: Size2<T, Dst>) -> bool {
        r@ == s@
    }

    /// Extents do not depend on position.
    fn transform(&self, s: Size2<T, Src>) -> (r: Size2<T, Dst>) {
        Size2::new(s.x, s.y)
    }
}

impl<T: Scalar, Src, Dst> Transform<Point3<T, Src>> for Translation3<T, Src, Dst> {
    type Output = Point3<T, Dst>;

    open spec fn transform_req(&self, p: Point3<T, Src>) -> bool {
        p@.add(self@).fits::<T>()
    }

    open spec fn transform_ensures(&self, p: Point3<T, Src>, r: Point3<T, Dst>) -> bool {
        r@ == p@.add(self@)
    }

    /// A point moves by the offset.
    fn transform(&self, p: Point3<T, Src>) -> (r: Point3<T, Dst>) {
        Point3::new(p.x.add(self.x), p.y.add(self.y), p.z.add(self.z))
    }
}

impl<T: Scalar, Src, Dst> Transform<Vector3<T, Src>> for Translation3<T, Src, Dst> {
    type Output = Vector3<T, Dst>;

    open spec fn transform_req(&self, v: Vector3<T, Src>) -> bool {
        true
    }

    open spec fn transform_ensures(&self, v: Vector3<T, Src>, r: Vector3<T, Dst>) -> bool {
        r@ == v@
    }

    /// A displacement is the same wherever it starts.
    fn transform(&self, v: Vector3<T, Src>) -> (r: Vector3<T, Dst>) {
        Vector3::new(v.x, v.y, v.z)
    }
}

impl<T: Scalar, Src, Dst> Transform<Vector3<T, Normal<Src>>> for Translation3<T, Src, Dst> {
    type Output = Vector3<T, Normal<Dst>>;

    open spec fn transform_req(&self, v: Vector3<T, Normal<Src>>) -> bool {
        true
    }

    open spec fn transform_ensures(
        &self,
        v: Vector3<T, Normal<Src>>,
        r: Vector3<T, Normal<Dst>>,
    ) -> bool {
        r@ == v@
    }

    /// A normal is the same wherever it is attached.
    fn transform(&self, v: Vector3<T, Normal<Src>>) -> (r: Vector3<T, Normal<Dst>>) {
        Vector3::new(v.x, v.y, v.z)
    }
}

impl<T: Scalar, Src, Dst> Transform<Box3<T, Src>> for Translation3<T, Src, Dst> {
    type Output = Box3<T, Dst>;

    open spec fn transform_req(&self, b: Box3<T, Src>) -> bool {
        b.min@.add(self@).fits::<T>() && b.max@.add(self@).fits::<T>()
    }

    open spec fn transform_ensures(&self, b: Box3<T, Src>, r: Box3<T, Dst>) -> bool {
        r.min@ == b.min@.add(self@) && r.max@ == b.max@.add(self@)
    }

    /// Both corners move by the offset.
    fn transform(&self, b: Box3<T, Src>) -> (r: Box3<T, Dst>) {
        Box3::new(self.transform(b.min), self.transform(b.max))
    }
}

impl<T: Scalar, Src, Dst> Transform<Size3<T, Src>> for Translation3<T, Src, Dst> {
    type Output = Size3<T, Dst>;

    open spec fn transform_req(&self, s: Size3<T, Src>) -> bool {
        true
    }

    open spec fn transform_ensures(&self, s: Size3<T, Src>, r: Size3<T, Dst>) -> bool {
        r@ == s@
    }

    /// Extents do not depend on position.
    fn transform(&self, s: Size3<T, Src>) -> (r: Size3<T, Dst>) {
        Size3::new(s.x, s.y, s.z)
    }
}

impl<T, Src, Dst> FromSpecImpl<Vector2<T, Src>> for Translation2<T, Src, Dst> {
    open spec fn obeys_from_spec() -> bool {
        true
    }

    open spec fn from_spec(v: Vector2<T, Src>) -> Self {
        Translation2 { x: v.x, y: v.y, _unit: PhantomData }
    }
}

impl<T, Src, Dst> From<Vector2<T, Src>> for Translation2<T, Src, Dst> {
    fn from(v: Vector2<T, Src>) -> (r: Self) {
        Self::new(v.x, v.y)
    }
}

impl<T, Src, Dst> FromSpecImpl<Vector3<T, Src>> for Translation3<T, Src, Dst> {
    open spec fn obeys_from_spec() -> bool {
        true
    }

    open spec fn from_spec(v: Vector3<T, Src>) -> Self {
        Translation3 { x: v.x, y: v.y, z: v.z, _unit: PhantomData }
    }
}

impl<T, Src, Dst> From<Vector3<T, Src>> for Translation3<T, Src, Dst> {
    fn from(v: Vector3<T, Src>) -> (r: Self) {
        Self::new(v.x, v.y, v.z)
    }
}

impl<T: Scalar, A, B, C> AddSpecImpl<Translation2<T, B, C>> for Translation2<T, A, B> {
    open spec fn obeys_add_spec() -> bool {
        true
    }

    open spec fn add_req(self, rhs: Translation2<T, B, C>) -> bool {
        self@.add(rhs@).fits::<T>()
    }

    open spec fn add_spec(self, rhs: Translation2<T, B, C>) -> Translation2<T, A, C> {
        Translation2 {
            x: T::of_int(self.x.val() + rhs.x.val()),
            y: T::of_int(self.y.val() + rhs.y.val()),
            _unit: PhantomData,
        }
    }
}

/// Moving from `A` to `B` and then from `B` to `C` adds the offsets.
impl<T: Scalar, A, B, C> Add<Translation2<T, B, C>> for Translation2<T, A, B> {
    type Output = Translation2<T, A, C>;

    fn add(self, rhs: Translation2<T, B, C>) -> (r: Translation2<T, A, C>)
        ensures
            r@ == self@.add(rhs@),
    {
        let r = Translation2::new(self.x.add(rhs.x), self.y.add(rhs.y));
        proof {
            lemma_is_of_int(r.x);
            lemma_is_of_int(r.y);
        }
        r
    }
}

impl<T: Scalar, A, B, C> SubSpecImpl<Translation2<T, B, C>> for Translation2<T, A, C> {
    open spec fn obeys_sub_spec() -> bool {
        true
    }

    open spec fn sub_req(self, rhs: Translation2<T, B, C>) -> bool {
        self@.sub(rhs@).fits::<T>()
    }

    open spec fn sub_spec(self, rhs: Translation2<T, B, C>) -> Translation2<T, A, B> {
        Translation2 {
            x: T::of_int(self.x.val() - rhs.x.val()),
            y: T::of_int(self.y.val() - rhs.y.val()),
            _unit: PhantomData,
        }
    }
}

/// What is left of a move from `A` to `C` once the part from `B` to `C` is
/// taken away.
impl<T: Scalar, A, B, C> Sub<Translation2<T, B, C>> for Translation2<T, A, C> {
    type Output = Translation2<T, A, B>;

    fn sub(self, rhs: Translation2<T, B, C>) -> (r: Translation2<T, A, B>)
        ensures
            r@ == self@.sub(rhs@),
    {
        let r = Translation2::new(self.x.sub(rhs.x), self.y.sub(rhs.y));
        proof {
            lemma_is_of_int(r.x);
            lemma_is_of_int(r.y);
        }
        r
    }
}

impl<T: Scalar, A, B, C> AddSpecImpl<Translation3<T, B, C>> for Translation3<T, A, B> {
    open spec fn obeys_add_spec() -> bool {
        true
    }

    open spec fn add_req(self, rhs: Translation3<T, B, C>) -> bool {
        self@.add(rhs@).fits::<T>()
    }

    open spec fn add_spec(self, rhs: Translation3<T, B, C>) -> Translation3<T, A, C> {
        Translation3 {
            x: T::of_int(self.x.val() + rhs.x.val()),
            y: T::of_int(self.y.val() + rhs.y.val()),
            z: T::of_int(self.z.val() + rhs.z.val()),
            _unit: PhantomData,
        }
    }
}

/// Moving from `A` to `B` and then from `B` to `C` adds the offsets.
impl<T: Scalar, A, B, C> Add<Translation3<T, B, C>> for Translation3<T, A, B> {
    type Output = Translation3<T, A, C>;

    fn add(self, rhs: Translation3<T, B, C>) -> (r: Translation3<T, A, C>)
        ensures
            r@ == self@.add(rhs@),
    {
        let r = Translation3::new(self.x.add(rhs.x), self.y.add(rhs.y), self.z.add(rhs.z));
        proof {
            lemma_is_of_int(r.x);
            lemma_is_of_int(r.y);
            lemma_is_of_int(r.z);
        }
        r
    }
}

impl<T: Scalar, A, B, C> SubSpecImpl<Translation3<T, B, C>> for Translation3<T, A, C> {
    open spec fn obeys_sub_spec() -> bool {
        true
    }

    open spec fn sub_req(self, rhs: Translation3<T, B, C>) -> bool {
        self@.sub(rhs@).fits::<T>()
    }

    open spec fn sub_spec(self, rhs: Translation3<T, B, C>) -> Translation3<T, A, B> {
        Translation3 {
            x: T::of_int(self.x.val() - rhs.x.val()),
            y: T::of_int(self.y.val() - rhs.y.val()),
            z: T::of_int(self.z.val() - rhs.z.val()),
            _unit: PhantomData,
        }
    }
}

/// What is left of a move from `A` to `C` once the part from `B` to `C` is
/// taken away.
impl<T: Scalar, A, B, C> Sub<Translation3<T, B, C>> for Translation3<T, A, C> {
    type Output = Translation3<T, A, B>;

    fn sub(self, rhs: Translation3<T, B, C>) -> (r: Translation3<T, A, B>)
        ensures
            r@ == self@.sub(rhs@),
    {
        let r = Translation3::new(self.x.sub(rhs.x), self.y.sub(rhs.y), self.z.sub(rhs.z));
        proof {
            lemma_is_of_int(r.x);
            lemma_is_of_int(r.y);
            lemma_is_of_int(r.z);
        }
        r
    }
}

} // verus!

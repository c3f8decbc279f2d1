//! Rotations: by an angle in the plane, by a unit quaternion in space.
use vstd::prelude::*;
use vstd::std_specs::cmp::PartialEqSpecImpl;
use std::marker::PhantomData;
use crate::arith::{
    dot4, dot4_fits, prod3, prod3_fits, quat_imag_fits, quat_real_fits, sandwich_fits,
};
use crate::bounds::{views2, views3, Box2, Box3};
use crate::identities::{
    lemma_axis_angle_is_quaternion, lemma_blend_ends, lemma_norm_multiplicative,
    lemma_scaled_axis_norm,
};
use crate::model::{lemma_mul_congruent, tight_bounds2, tight_bounds3, Quat, Vec2, Vec3};
use crate::num::{
    abs_int, half_of, lemma_is_of_int, min, trunc_div, unit_pair, Scalar, Trig, Zero,
};
use crate::point::{Point2, Point3};
use crate::quaternion::{
    lemma_axis_angle_is_rotation, lemma_axis_stays, lemma_euler_is_product,
    lemma_product_rotates_in_turn,
};
use crate::size::{Size2, Size3};
use crate::space::{Normal, UnknownUnit};
use crate::transform::{Transform, Transformation};
use crate::transform2::corners2;
use crate::transform3::{corners3, mat4_of_quat, rotation3_spec};
use crate::units::Angle;
use crate::vector::{Vector2, Vector3};

verus! {

/// A rotation of the plane from `Src` space to `Dst` space, by an angle.
#[derive(Debug, Hash)]
pub struct Rotation2<T, Src, Dst> {
    pub angle: Angle<T>,
    pub _unit: PhantomData<(Src, Dst)>,
}

/// A rotation of space from `Src` to `Dst`, held as the quaternion
/// `a + i*I + j*J + k*K`. It stands for a rotation only when its norm is one;
/// nothing but `new_unchecked`'s caller sees to that.
#[derive(Debug, Hash)]
pub struct Rotation3<T, Src, Dst> {
    pub a: T,
    pub i: T,
    pub j: T,
    pub k: T,
    pub _unit: PhantomData<(Src, Dst)>,
}

impl<T: Copy, Src, Dst> Copy for Rotation2<T, Src, Dst> {
}

impl<T: Copy, Src, Dst> Clone for Rotation2<T, Src, Dst> {
    fn clone(&self) -> (r: Self)
        ensures
            r == *self,
    {
        *self
    }
}

impl<T: Copy, Src, Dst> Copy for Rotation3<T, Src, Dst> {
}

impl<T: Copy, Src, Dst> Clone for Rotation3<T, Src, Dst> {
    fn clone(&self) -> (r: Self)
        ensures
            r == *self,
    {
        *self
    }
}

impl<T: Scalar, Src, Dst> View for Rotation2<T, Src, Dst> {
    type V = int;

    /// The integer the angle stands for.
    open spec fn view(&self) -> int {
        self.angle@
    }
}

impl<T: Scalar, Src, Dst> View for Rotation3<T, Src, Dst> {
    type V = Quat;

    /// The quaternion, as integers.
    open spec fn view(&self) -> Quat {
        Quat { a: self.a.val(), i: self.i.val(), j: self.j.val(), k: self.k.val() }
    }
}

impl<T: Scalar, Src, Dst> PartialEqSpecImpl for Rotation2<T, Src, Dst> {
    open spec fn obeys_eq_spec() -> bool {
        true
    }

    open spec fn eq_spec(&self, other: &Self) -> bool {
        self@ == other@
    }
}

impl<T: Scalar, Src, Dst> PartialEq for Rotation2<T, Src, Dst> {
    fn eq(&self, other: &Self) -> (r: bool) {
        self.angle == other.angle
    }
}

impl<T: Scalar, Src, Dst> Eq for Rotation2<T, Src, Dst> {
}

impl<T: Scalar, Src, Dst> PartialEqSpecImpl for Rotation3<T, Src, Dst> {
    open spec fn obeys_eq_spec() -> bool {
        true
    }

    open spec fn eq_spec(&self, other: &Self) -> bool {
        self@ == other@
    }
}

impl<T: Scalar, Src, Dst> PartialEq for Rotation3<T, Src, Dst> {
    fn eq(&self, other: &Self) -> (r: bool) {
        self.a.eq(other.a) && self.i.eq(other.i) && self.j.eq(other.j) && self.k.eq(other.k)
    }
}

impl<T: Scalar, Src, Dst> Eq for Rotation3<T, Src, Dst> {
}

impl<T, Src, Dst> Rotation2<T, Src, Dst> {
    pub fn new(angle: Angle<T>) -> (r: Self)
        ensures
            r.angle == angle,
    {
        Self { angle, _unit: PhantomData }
    }
}

impl<T: Scalar, Src, Dst> Zero for Rotation2<T, Src, Dst> {
    open spec fn is_zero(&self) -> bool {
        self@ == 0
    }

    fn zero() -> (r: Self) {
        Self::new(Angle::zero())
    }
}

impl<T: Scalar, Src, Dst> Transformation<T, Src, Dst> for Rotation2<T, Src, Dst> {
    type Inverse = Rotation2<T, Dst, Src>;

    open spec fn is_identity_spec(&self) -> bool {
        self@ == 0
    }

    open spec fn inverse_req(&self) -> bool {
        T::fits(-self@)
    }

    open spec fn inverse_ensures(&self, r: Rotation2<T, Dst, Src>) -> bool {
        r@ == -self@
    }

    fn identity() -> (r: Self) {
        Zero::zero()
    }

    fn is_identity(&self) -> (b: bool) {
        self.angle.0.eq(T::zero())
    }

    /// The rotation by the opposite angle.
    fn inverse(&self) -> (r: Rotation2<T, Dst, Src>) {
        Rotation2::new(Angle::from_radians(self.angle.radians().neg()))
    }
}

impl<T: Scalar + Trig, Src, Dst> Transform<Point2<T, Src>> for Rotation2<T, Src, Dst> {
    type Output = Point2<T, Dst>;

    open spec fn transform_req(&self, p: Point2<T, Src>) -> bool {
        p@.rotate_fits::<T>(self.angle.0.sin_spec().val(), self.angle.0.cos_spec().val())
    }

    open spec fn transform_ensures(&self, p: Point2<T, Src>, r: Point2<T, Dst>) -> bool {
        r@ == p@.rotate(self.angle.0.sin_spec().val(), self.angle.0.cos_spec().val())
    }

    /// The point turned about the origin by the angle.
    fn transform(&self, p: Point2<T, Src>) -> (r: Point2<T, Dst>) {
        let sin = self.angle.0.sin();
        let cos = self.angle.0.cos();
        Point2::new(p.x.mul(cos).sub(p.y.mul(sin)), p.y.mul(cos).add(p.x.mul(sin)))
    }
}

impl<T: Scalar + Trig, Src, Dst> Transform<Vector2<T, Src>> for Rotation2<T, Src, Dst> {
    type Output = Vector2<T, Dst>;

    open spec fn transform_req(&self, v: Vector2<T, Src>) -> bool {
        v@.rotate_fits::<T>(self.angle.0.sin_spec().val(), self.angle.0.cos_spec().val())
    }

    open spec fn transform_ensures(&self, v: Vector2<T, Src>, r: Vector2<T, Dst>) -> bool {
        r@ == v@.rotate(self.angle.0.sin_spec().val(), self.angle.0.cos_spec().val())
    }

    /// A direction turns as the point at its tip does.
    fn transform(&self, v: Vector2<T, Src>) -> (r: Vector2<T, Dst>) {
        Transform::transform(self, v.to_point()).to_vector()
    }
}

impl<T: Scalar + Trig, Src, Dst> Transform<Vector2<T, Normal<Src>>> for Rotation2<T, Src, Dst> {
    type Output = Vector2<T, Normal<Dst>>;

    open spec fn transform_req(&self, n: Vector2<T, Normal<Src>>) -> bool {
        n@.rotate_fits::<T>(self.angle.0.sin_spec().val(), self.angle.0.cos_spec().val())
    }

    open spec fn transform_ensures(
        &self,
        n: Vector2<T, Normal<Src>>,
        r: Vector2<T, Normal<Dst>>,
    ) -> bool {
        r@ == n@.rotate(self.angle.0.sin_spec().val(), self.angle.0.cos_spec().val())
    }

    /// A normal turns as a direction does.
    fn transform(&self, n: Vector2<T, Normal<Src>>) -> (r: Vector2<T, Normal<Dst>>) {
        Transform::transform(self, n.to_vector()).to_normal()
    }
}

impl<T: Scalar + Trig, Src, Dst> Transform<Box2<T, Src>> for Rotation2<T, Src, Dst> {
    type Output = Box2<T, Dst>;

    open spec fn transform_req(&self, b: Box2<T, Src>) -> bool {
        forall|i: int|
            0 <= i < 4 ==> (#[trigger] corners2(b.min@, b.max@)[i]).rotate_fits::<T>(
                self.angle.0.sin_spec().val(),
                self.angle.0.cos_spec().val(),
            )
    }

    open spec fn transform_ensures(&self, b: Box2<T, Src>, r: Box2<T, Dst>) -> bool {
        tight_bounds2(
            corners2(b.min@, b.max@).map_values(
                |c: Vec2| c.rotate(self.angle.0.sin_spec().val(), self.angle.0.cos_spec().val()),
            ),
            r.min@,
            r.max@,
        )
    }

    /// The tight box around the images of all four corners: a turn can make
    /// any corner the lowest or the highest.
    fn transform(&self, b: Box2<T, Src>) -> (r: Box2<T, Dst>) {
        proof {
            let s = self.angle.0.sin_spec().val();
            let c = self.angle.0.cos_spec().val();
            let cs = corners2(b.min@, b.max@);
            assert(cs[0].rotate_fits::<T>(s, c));
            assert(cs[1].rotate_fits::<T>(s, c));
            assert(cs[2].rotate_fits::<T>(s, c));
            assert(cs[3].rotate_fits::<T>(s, c));
        }
        let points = [
            Transform::transform(self, b.min),
            Transform::transform(self, b.max),
            Transform::transform(self, Point2::new(b.max.x, b.min.y)),
            Transform::transform(self, Point2::new(b.min.x, b.max.y)),
        ];
        let slice = points.as_slice();
        let r = Box2::from_points(slice);
        proof {
            let images = corners2(b.min@, b.max@).map_values(
                |c: Vec2| c.rotate(self.angle.0.sin_spec().val(), self.angle.0.cos_spec().val()),
            );
            assert(views2(slice@) =~= images);
        }
        r
    }
}

impl<T: Scalar, Src, Dst> Transform<Size2<T, Src>> for Rotation2<T, Src, Dst> {
    type Output = Size2<T, Dst>;

    open spec fn transform_req(&self, s: Size2<T, Src>) -> bool {
        true
    }

    open spec fn transform_ensures(&self, s: Size2<T, Src>, r: Size2<T, Dst>) -> bool {
        r@ == s@
    }

    /// Extents are carried over unchanged.
    fn transform(&self, s: Size2<T, Src>) -> (r: Size2<T, Dst>) {
        Size2::new(s.x, s.y)
    }
}

/// The product `q2 * q1` can be computed in `T`, each part summed left to right.
pub open spec fn quat_mul_fits<T: Scalar>(q2: Quat, q1: Quat) -> bool {
    &&& quat_real_fits::<T>(q2.a, q1.a, q2.i, q1.i, q2.j, q1.j, q2.k, q1.k)
    &&& quat_imag_fits::<T>(q2.i, q1.a, q2.a, q1.i, q2.j, q1.k, q2.k, q1.j)
    &&& quat_imag_fits::<T>(q2.j, q1.a, q2.a, q1.j, q2.k, q1.i, q2.i, q1.k)
    &&& quat_imag_fits::<T>(q2.k, q1.a, q2.a, q1.k, q2.i, q1.j, q2.j, q1.i)
}

/// The image of `p` under `q` can be computed in `T`: the doubled cross
/// product of the vector part with `p`, then each coordinate summed left to
/// right.
pub open spec fn rotate_fits<T: Scalar>(q: Quat, p: Vec3) -> bool {
    let c = q.vector_part().cross(p).scale(2);
    &&& T::fits(2)
    &&& q.vector_part().cross_fits::<T>(p)
    &&& c.fits::<T>()
    &&& sandwich_fits::<T>(p.x, q.a, c.x, q.j, c.z, q.k, c.y)
    &&& sandwich_fits::<T>(p.y, q.a, c.y, q.k, c.x, q.i, c.z)
    &&& sandwich_fits::<T>(p.z, q.a, c.z, q.i, c.y, q.j, c.x)
}

impl<T, Src, Dst> Rotation3<T, Src, Dst> {
    /// The quaternion with the given parts, taken as they are: the caller
    /// answers for its norm being one.
    pub fn new_unchecked(a: T, i: T, j: T, k: T) -> (r: Self)
        ensures
            r.a == a,
            r.i == i,
            r.j == j,
            r.k == k,
    {
        Self { a, i, j, k, _unit: PhantomData }
    }

    /// The imaginary parts as a vector.
    pub fn vector_part(&self) -> (r: Vector3<T, UnknownUnit>) where T: Copy
        ensures
            r.x == self.i,
            r.y == self.j,
            r.z == self.k,
    {
        Vector3::new(self.i, self.j, self.k)
    }
}

/// The quaternion of three half Euler angles can be computed in `T` from
/// their sines and cosines: each part is a sum or difference of two triple
/// products.
pub open spec fn euler_fits<T: Scalar>(
    sr: int,
    cr: int,
    sp: int,
    cp: int,
    sy: int,
    cy: int,
) -> bool {
    &&& prod3_fits::<T>(cy, cr, cp)
    &&& prod3_fits::<T>(sy, sr, sp)
    &&& prod3_fits::<T>(cy, sr, cp)
    &&& prod3_fits::<T>(sy, cr, sp)
    &&& prod3_fits::<T>(cy, cr, sp)
    &&& prod3_fits::<T>(sy, sr, cp)
    &&& prod3_fits::<T>(sy, cr, cp)
    &&& prod3_fits::<T>(cy, sr, sp)
    &&& Quat::from_euler_sin_cos(sr, cr, sp, cp, sy, cy).fits::<T>()
}

impl<T: Scalar, Src, Dst> Rotation3<T, Src, Dst> {
    /// The rotation with the given half-angle sines and cosines of roll
    /// (`sr`, `cr`), pitch (`sp`, `cp`) and yaw (`sy`, `cy`): the product of
    /// the yaw about the third axis, the pitch about the second and the roll
    /// about the first. It is a unit quaternion when the squares of each sine
    /// and cosine add up to one.
    pub fn from_half_angle_sin_cos(sr: T, cr: T, sp: T, cp: T, sy: T, cy: T) -> (r: Self)
        requires
            euler_fits::<T>(sr.val(), cr.val(), sp.val(), cp.val(), sy.val(), cy.val()),
        ensures
            r@ == Quat::from_euler_sin_cos(
                sr.val(),
                cr.val(),
                sp.val(),
                cp.val(),
                sy.val(),
                cy.val(),
            ),
            r@ == (Quat { a: cy.val(), i: 0, j: 0, k: sy.val() }).mul(
                Quat { a: cp.val(), i: 0, j: sp.val(), k: 0 },
            ).mul(Quat { a: cr.val(), i: sr.val(), j: 0, k: 0 }),
            sr.val() * sr.val() + cr.val() * cr.val() == 1 && sp.val() * sp.val() + cp.val()
                * cp.val() == 1 && sy.val() * sy.val() + cy.val() * cy.val() == 1
                ==> r@.is_unit(),
    {
        proof {
            lemma_euler_is_product(sr.val(), cr.val(), sp.val(), cp.val(), sy.val(), cy.val());
        }
        Self::new_unchecked(
            prod3(cy, cr, cp).add(prod3(sy, sr, sp)),
            prod3(cy, sr, cp).sub(prod3(sy, cr, sp)),
            prod3(cy, cr, sp).add(prod3(sy, sr, cp)),
            prod3(sy, cr, cp).sub(prod3(cy, sr, sp)),
        )
    }

    /// The rotation with the given Euler angles: the product of the yaw, the
    /// pitch and the roll, which turns about the fixed axes by the roll first
    /// and the yaw last. Each angle is halved, rounding toward zero, before
    /// its sine and cosine are taken; where the squares of each sine and
    /// cosine add up to one, the result is a unit quaternion.
    pub fn from_euler_angles(roll: Angle<T>, pitch: Angle<T>, yaw: Angle<T>) -> (r: Self)
        where T: Trig
        requires
            T::fits(2),
            T::fits(trunc_div(roll@, 2)),
            T::fits(trunc_div(pitch@, 2)),
            T::fits(trunc_div(yaw@, 2)),
            euler_fits::<T>(
                half_of::<T>(roll@).sin_spec().val(),
                half_of::<T>(roll@).cos_spec().val(),
                half_of::<T>(pitch@).sin_spec().val(),
                half_of::<T>(pitch@).cos_spec().val(),
                half_of::<T>(yaw@).sin_spec().val(),
                half_of::<T>(yaw@).cos_spec().val(),
            ),
        ensures
            r@ == Quat::from_euler_sin_cos(
                half_of::<T>(roll@).sin_spec().val(),
                half_of::<T>(roll@).cos_spec().val(),
                half_of::<T>(pitch@).sin_spec().val(),
                half_of::<T>(pitch@).cos_spec().val(),
                half_of::<T>(yaw@).sin_spec().val(),
                half_of::<T>(yaw@).cos_spec().val(),
            ),
            unit_pair(half_of::<T>(roll@)) && unit_pair(half_of::<T>(pitch@)) && unit_pair(
                half_of::<T>(yaw@),
            ) ==> r@.is_unit(),
    {
        let two = T::one().add(T::one());
        let hy = yaw.radians().div(two);
        let hp = pitch.radians().div(two);
        let hr = roll.radians().div(two);
        proof {
            lemma_is_of_int(hy);
            lemma_is_of_int(hp);
            lemma_is_of_int(hr);
        }
        let sy = hy.sin();
        let cy = hy.cos();
        let sp = hp.sin();
        let cp = hp.cos();
        let sr = hr.sin();
        let cr = hr.cos();
        Self::from_half_angle_sin_cos(sr, cr, sp, cp, sy, cy)
    }

    /// The quaternion for a turn about the unit vector `axis` whose half angle
    /// has sine `sin` and cosine `cos`: the cosine is the real part, the axis
    /// scaled by the sine the vector part. Its matrix is the one that
    /// `Transform3::rotation_from_half_angle` builds from the same arguments.
    /// The turn leaves the axis in place. The squared norm is the squared
    /// length of the axis times the square of the sine, plus the square of the
    /// cosine; for a unit axis and a sine and cosine whose squares add up to
    /// one the quaternion has norm one and its matrix has determinant one.
    pub fn around_unit_axis(axis: Vector3<T, Src>, sin: T, cos: T) -> (r: Self)
        requires
            axis@.scale(sin.val()).fits::<T>(),
        ensures
            r@ == (Quat {
                a: cos.val(),
                i: axis@.x * sin.val(),
                j: axis@.y * sin.val(),
                k: axis@.z * sin.val(),
            }),
            mat4_of_quat(r@) == rotation3_spec(axis@, sin.val(), cos.val()),
            r@.rotate(axis@) == axis@,
            r@.norm_squared() == axis@.dot(axis@) * (sin.val() * sin.val()) + cos.val()
                * cos.val(),
            axis@.dot(axis@) == 1 && sin.val() * sin.val() + cos.val() * cos.val() == 1
                ==> r@.is_unit() && mat4_of_quat(r@).det() == 1,
            sin.val() == 0 && cos.val() == 1 ==> r@ == Quat::identity(),
    {
        proof {
            lemma_scaled_axis_norm(axis@, sin.val(), cos.val());
            lemma_axis_stays(axis@, sin.val(), cos.val());
            if axis@.dot(axis@) == 1 && sin.val() * sin.val() + cos.val() * cos.val() == 1 {
                lemma_axis_angle_is_rotation(axis@, sin.val(), cos.val());
            }
            lemma_axis_angle_is_quaternion(axis@, sin.val(), cos.val());
            if sin.val() == 0 {
                lemma_mul_congruent(axis@.x, sin.val(), 0);
                lemma_mul_congruent(axis@.y, sin.val(), 0);
                lemma_mul_congruent(axis@.z, sin.val(), 0);
            }
        }
        Self::new_unchecked(cos, axis.x.mul(sin), axis.y.mul(sin), axis.z.mul(sin))
    }

    /// The squared norm: the sum of the squares of the four parts.
    pub fn norm_squared(&self) -> (r: T)
        requires
            dot4_fits::<T>(
                self@.a,
                self@.a,
                self@.i,
                self@.i,
                self@.j,
                self@.j,
                self@.k,
                self@.k,
            ),
        ensures
            r.val() == self@.norm_squared(),
    {
        dot4(self.a, self.a, self.i, self.i, self.j, self.j, self.k, self.k)
    }

    /// Whether the norm is one. With exact scalars no tolerance is involved.
    pub fn is_normalized(&self) -> (r: bool)
        requires
            dot4_fits::<T>(
                self@.a,
                self@.a,
                self@.i,
                self@.i,
                self@.j,
                self@.j,
                self@.k,
                self@.k,
            ),
        ensures
            r == self@.is_unit(),
    {
        self.norm_squared().eq(T::one())
    }

    /// The rotation that applies `self` first and `other` second: the Hamilton
    /// product `other * self`. Both must be unit quaternions. The result turns
    /// every vector to where `other` sends what `self` made of it.
    pub fn then<NewDst>(&self, other: &Rotation3<T, Dst, NewDst>) -> (r: Rotation3<T, Src, NewDst>)
        requires
            self@.is_unit(),
            other@.is_unit(),
            quat_mul_fits::<T>(other@, self@),
        ensures
            r@ == other@.mul(self@),
            r@.is_unit(),
            forall|v: Vec3| #[trigger] r@.rotate(v) == other@.rotate(self@.rotate(v)),
    {
        let r1 = self;
        let r2 = other;
        proof {
            lemma_norm_multiplicative(other@, self@);
            assert forall|v: Vec3| #[trigger]
                other@.mul(self@).rotate(v) == other@.rotate(self@.rotate(v)) by {
                lemma_product_rotates_in_turn(self@, other@, v);
            }
        }
        Rotation3::new_unchecked(
            r2.a.mul(r1.a).sub(r2.i.mul(r1.i)).sub(r2.j.mul(r1.j)).sub(r2.k.mul(r1.k)),
            r2.i.mul(r1.a).add(r2.a.mul(r1.i)).add(r2.j.mul(r1.k)).sub(r2.k.mul(r1.j)),
            r2.j.mul(r1.a).add(r2.a.mul(r1.j)).add(r2.k.mul(r1.i)).sub(r2.i.mul(r1.k)),
            r2.k.mul(r1.a).add(r2.a.mul(r1.k)).add(r2.i.mul(r1.j)).sub(r2.j.mul(r1.i)),
        )
    }

    /// The dot product of the two quaternions.
    pub fn dot(&self, other: &Self) -> (r: T)
        requires
            dot4_fits::<T>(
                self@.a,
                other@.a,
                self@.i,
                other@.i,
                self@.j,
                other@.j,
                self@.k,
                other@.k,
            ),
        ensures
            r.val() == self@.dot(other@),
    {
        dot4(self.a, other.a, self.i, other.i, self.j, other.j, self.k, other.k)
    }

    /// The representative of `other` on the side of `self`, with the cosine of
    /// the angle to it capped at one.
    ///
    /// A quaternion and its negative stand for the same rotation. Interpolating
    /// from `self` must aim at whichever of the two is nearer: `other` itself
    /// when the dot product is zero or more, its negative otherwise. The
    /// cosine returned is the dot product with that representative, and never
    /// more than one, so that an arccosine may be taken of it.
    pub fn shorter_arc(&self, other: &Self) -> (r: (Self, T))
        requires
            dot4_fits::<T>(
                self@.a,
                other@.a,
                self@.i,
                other@.i,
                self@.j,
                other@.j,
                self@.k,
                other@.k,
            ),
            self@.dot(other@) < 0 ==> T::fits(-1) && other@.scale(-1).fits::<T>() && T::fits(
                -self@.dot(other@),
            ),
        ensures
            r.0@ == (if self@.dot(other@) < 0 { other@.scale(-1) } else { other@ }),
            r.1.val() == (if abs_int(self@.dot(other@)) <= 1 { abs_int(self@.dot(other@)) } else { 1 }),
            0 <= r.1.val() <= 1,
    {
        let one = T::one();
        let mut r2 = *other;
        let mut dot = self.dot(other);
        if dot.lt(T::zero()) {
            r2 = r2.mul(one.neg());
            dot = dot.neg();
        }
        dot = min(dot, one);
        (r2, dot)
    }

    /// The linear blend `self * (1 - t) + other * t`. It is the first end for
    /// `t = 0` and the second for `t = 1`; in between it leaves the unit
    /// sphere, and wants normalizing before it stands for a rotation.
    pub fn blend(&self, other: &Self, t: T) -> (r: Self)
        requires
            T::fits(1 - t.val()),
            self@.scale(1 - t.val()).fits::<T>(),
            other@.scale(t.val()).fits::<T>(),
            self@.blend(other@, t.val()).fits::<T>(),
        ensures
            r@ == self@.blend(other@, t.val()),
            t.val() == 0 ==> r@ == self@,
            t.val() == 1 ==> r@ == other@,
    {
        proof {
            lemma_blend_ends(self@, other@, t.val());
        }
        let one_minus_t = T::one().sub(t);
        self.mul(one_minus_t).add(other.mul(t))
    }

    /// The partwise sum.
    pub fn add(&self, other: Self) -> (r: Self)
        requires
            self@.add(other@).fits::<T>(),
        ensures
            r@ == self@.add(other@),
    {
        Self::new_unchecked(
            self.a.add(other.a),
            self.i.add(other.i),
            self.j.add(other.j),
            self.k.add(other.k),
        )
    }

    /// The partwise difference.
    pub fn sub(&self, other: Self) -> (r: Self)
        requires
            self@.sub(other@).fits::<T>(),
        ensures
            r@ == self@.sub(other@),
    {
        Self::new_unchecked(
            self.a.sub(other.a),
            self.i.sub(other.i),
            self.j.sub(other.j),
            self.k.sub(other.k),
        )
    }

    /// Every part multiplied by `factor`.
    pub fn mul(&self, factor: T) -> (r: Self)
        requires
            self@.scale(factor.val()).fits::<T>(),
        ensures
            r@ == self@.scale(factor.val()),
    {
        Self::new_unchecked(
            self.a.mul(factor),
            self.i.mul(factor),
            self.j.mul(factor),
            self.k.mul(factor),
        )
    }
}

impl<T: Scalar, Src, Dst> Transformation<T, Src, Dst> for Rotation3<T, Src, Dst> {
    type Inverse = Rotation3<T, Dst, Src>;

    open spec fn is_identity_spec(&self) -> bool {
        self@ == Quat::identity()
    }

    open spec fn inverse_req(&self) -> bool {
        self@.conjugate().fits::<T>()
    }

    open spec fn inverse_ensures(&self, r: Rotation3<T, Dst, Src>) -> bool {
        r@ == self@.conjugate()
    }

    fn identity() -> (r: Self) {
        Self::new_unchecked(T::one(), T::zero(), T::zero(), T::zero())
    }

    fn is_identity(&self) -> (b: bool) {
        let zero = T::zero();
        self.a.eq(T::one()) && self.i.eq(zero) && self.j.eq(zero) && self.k.eq(zero)
    }

    /// The conjugate, which undoes a unit quaternion's rotation.
    fn inverse(&self) -> (r: Rotation3<T, Dst, Src>) {
        Rotation3::new_unchecked(self.a, self.i.neg(), self.j.neg(), self.k.neg())
    }
}

impl<T: Scalar, Src, Dst> Transform<Point3<T, Src>> for Rotation3<T, Src, Dst> {
    type Output = Point3<T, Dst>;

    open spec fn transform_req(&self, p: Point3<T, Src>) -> bool {
        rotate_fits::<T>(self@, p@)
    }

    open spec fn transform_ensures(&self, p: Point3<T, Src>, r: Point3<T, Dst>) -> bool {
        r@ == self@.rotate(p@)
    }

    /// The point turned about the origin, without building a matrix.
    fn transform(&self, p: Point3<T, Src>) -> (r: Point3<T, Dst>) {
        let two = T::one().add(T::one());
        let cross = self.vector_part().cross(p.to_vector().erase_unit()) * two;
        Point3::new(
            p.x.add(self.a.mul(cross.x)).add(self.j.mul(cross.z)).sub(self.k.mul(cross.y)),
            p.y.add(self.a.mul(cross.y)).add(self.k.mul(cross.x)).sub(self.i.mul(cross.z)),
            p.z.add(self.a.mul(cross.z)).add(self.i.mul(cross.y)).sub(self.j.mul(cross.x)),
        )
    }
}

impl<T: Scalar, Src, Dst> Transform<Vector3<T, Src>> for Rotation3<T, Src, Dst> {
    type Output = Vector3<T, Dst>;

    open spec fn transform_req(&self, v: Vector3<T, Src>) -> bool {
        rotate_fits::<T>(self@, v@)
    }

    open spec fn transform_ensures(&self, v: Vector3<T, Src>, r: Vector3<T, Dst>) -> bool {
        r@ == self@.rotate(v@)
    }

    /// A direction turns as the point at its tip does.
    fn transform(&self, v: Vector3<T, Src>) -> (r: Vector3<T, Dst>) {
        Transform::transform(self, v.to_point()).to_vector()
    }
}

impl<T: Scalar, Src, Dst> Transform<Vector3<T, Normal<Src>>> for Rotation3<T, Src, Dst> {
    type Output = Vector3<T, Normal<Dst>>;

    open spec fn transform_req(&self, n: Vector3<T, Normal<Src>>) -> bool {
        rotate_fits::<T>(self@, n@)
    }

    open spec fn transform_ensures(
        &self,
        n: Vector3<T, Normal<Src>>,
        r: Vector3<T, Normal<Dst>>,
    ) -> bool {
        r@ == self@.rotate(n@)
    }

    /// A normal turns as a direction does.
    fn transform(&self, n: Vector3<T, Normal<Src>>) -> (r: Vector3<T, Normal<Dst>>) {
        Transform::transform(self, n.to_vector()).to_normal()
    }
}

impl<T: Scalar, Src, Dst> Transform<Box3<T, Src>> for Rotation3<T, Src, Dst> {
    type Output = Box3<T, Dst>;

    open spec fn transform_req(&self, b: Box3<T, Src>) -> bool {
        forall|i: int|
            0 <= i < 8 ==> rotate_fits::<T>(self@, #[trigger] corners3(b.min@, b.max@)[i])
    }

    open spec fn transform_ensures(&self, b: Box3<T, Src>, r: Box3<T, Dst>) -> bool {
        tight_bounds3(
            corners3(b.min@, b.max@).map_values(|c: Vec3| self@.rotate(c)),
            r.min@,
            r.max@,
        )
    }

    /// The tight box around the images of all eight corners: a turn can make
    /// any corner the lowest or the highest.
    fn transform(&self, b: Box3<T, Src>) -> (r: Box3<T, Dst>) {
        let min = b.min;
        let max = b.max;
        proof {
            let cs = corners3(b.min@, b.max@);
            assert(rotate_fits::<T>(self@, cs[0]));
            assert(rotate_fits::<T>(self@, cs[1]));
            assert(rotate_fits::<T>(self@, cs[2]));
            assert(rotate_fits::<T>(self@, cs[3]));
            assert(rotate_fits::<T>(self@, cs[4]));
            assert(rotate_fits::<T>(self@, cs[5]));
            assert(rotate_fits::<T>(self@, cs[6]));
            assert(rotate_fits::<T>(self@, cs[7]));
        }
        let points = [
            Transform::transform(self, min),
            Transform::transform(self, Point3::new(min.x, min.y, max.z)),
            Transform::transform(self, Point3::new(min.x, max.y, min.z)),
            Transform::transform(self, Point3::new(min.x, max.y, max.z)),
            Transform::transform(self, Point3::new(max.x, min.y, min.z)),
            Transform::transform(self, Point3::new(max.x, min.y, max.z)),
            Transform::transform(self, Point3::new(max.x, max.y, min.z)),
            Transform::transform(self, max),
        ];
        let slice = points.as_slice();
        let r = Box3::from_points(slice);
        proof {
            let images = corners3(b.min@, b.max@).map_values(|c: Vec3| self@.rotate(c));
            assert(views3(slice@) =~= images);
        }
        r
    }
}

impl<T: Scalar, Src, Dst> Transform<Size3<T, Src>> for Rotation3<T, Src, Dst> {
    type Output = Size3<T, Dst>;

    open spec fn transform_req(&self, s: Size3<T, Src>) -> bool {
        true
    }

    open spec fn transform_ensures(&self, s: Size3<T, Src>, r: Size3<T, Dst>) -> bool {
        r@ == s@
    }

    /// Extents are carried over unchanged.
    fn transform(&self, s: Size3<T, Src>) -> (r: Size3<T, Dst>) {
        Size3::new(s.x, s.y, s.z)
    }
}

} // verus!

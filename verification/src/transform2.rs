//! General 2D affine transforms: a 3x2 matrix acting on row vectors, stored
//! together with the matrix that undoes it.
use vstd::prelude::*;
use vstd::std_specs::cmp::PartialEqSpecImpl;
use vstd::std_specs::ops::MulSpecImpl;
use std::marker::PhantomData;
use std::ops::Mul;
use crate::arith::{dot2, dot2_fits};
use crate::bounds::{views2, Box2};
use crate::identities::{
    lemma_composition_exact2, lemma_rotation2_exact, lemma_translation_exact,
    lemma_unimodular_inverse2, lemma_unit_scaling_exact,
};
use crate::model::{tight_bounds2, Mat3x2, Transform2Model, Vec2, Vec3};
use crate::num::{trunc_div, unit_pair, Scalar, Trig, Zero};
use crate::point::Point2;
use crate::rotation::Rotation2;
use crate::scale::Scale;
use crate::space::{Normal, UnknownUnit};
use crate::transform::{Transform, Transformation};
use crate::translation::Translation2;
use crate::units::Angle;
use crate::vector::Vector2;

verus! {

/// A 2D transform from `Src` space to `Dst` space.
///
/// Holds the forward matrix and a cached matrix for the way back. Both are
/// written together at construction and never change afterwards.
#[derive(Debug)]
pub struct Transform2<T, Src, Dst> {
    mat: [[T; 2]; 3],
    mat_inv: [[T; 2]; 3],
    _unit: PhantomData<(Src, Dst)>,
}

impl<T: Copy, Src, Dst> Copy for Transform2<T, Src, Dst> {
}

impl<T: Copy, Src, Dst> Clone for Transform2<T, Src, Dst> {
    fn clone(&self) -> (r: Self)
        ensures
            r == *self,
    {
        *self
    }
}

/// The integer matrix a 3x2 array of scalars stands for.
pub open spec fn mat3x2_of<T: Scalar>(m: [[T; 2]; 3]) -> Mat3x2 {
    Mat3x2 {
        m11: m[0][0].val(),
        m12: m[0][1].val(),
        m21: m[1][0].val(),
        m22: m[1][1].val(),
        m31: m[2][0].val(),
        m32: m[2][1].val(),
    }
}

/// The product `a * b` can be computed in `T`, each entry summed left to right.
pub open spec fn mat3x2_mul_fits<T: Scalar>(a: Mat3x2, b: Mat3x2) -> bool {
    &&& dot2_fits::<T>(a.m11, b.m11, a.m12, b.m21)
    &&& dot2_fits::<T>(a.m11, b.m12, a.m12, b.m22)
    &&& dot2_fits::<T>(a.m21, b.m11, a.m22, b.m21)
    &&& dot2_fits::<T>(a.m21, b.m12, a.m22, b.m22)
    &&& dot2_fits::<T>(a.m31, b.m11, a.m32, b.m21)
    &&& T::fits(a.m31 * b.m11 + a.m32 * b.m21 + b.m31)
    &&& dot2_fits::<T>(a.m31, b.m12, a.m32, b.m22)
    &&& T::fits(a.m31 * b.m12 + a.m32 * b.m22 + b.m32)
}

/// The determinant of `m` can be computed in `T`.
pub open spec fn det2_fits<T: Scalar>(m: Mat3x2) -> bool {
    T::fits(m.m11 * m.m22) && T::fits(m.m12 * m.m21) && T::fits(m.det())
}

/// The inverse of `m` can be computed in `T`: the reciprocal of the
/// determinant and each entry of the adjugate scaled by it.
pub open spec fn inverse2_fits<T: Scalar>(m: Mat3x2) -> bool {
    let d = trunc_div(1, m.det());
    &&& T::fits(d)
    &&& T::fits(d * m.m22)
    &&& T::fits(0 - m.m12)
    &&& T::fits(d * (0 - m.m12))
    &&& T::fits(0 - m.m21)
    &&& T::fits(d * (0 - m.m21))
    &&& T::fits(d * m.m11)
    &&& T::fits(m.m21 * m.m32)
    &&& T::fits(m.m22 * m.m31)
    &&& T::fits(m.m21 * m.m32 - m.m22 * m.m31)
    &&& T::fits(d * (m.m21 * m.m32 - m.m22 * m.m31))
    &&& T::fits(m.m12 * m.m31)
    &&& T::fits(m.m11 * m.m32)
    &&& T::fits(m.m12 * m.m31 - m.m11 * m.m32)
    &&& T::fits(d * (m.m12 * m.m31 - m.m11 * m.m32))
}

/// The image of the point `p` under `m` can be computed in `T`.
pub open spec fn apply_point2_fits<T: Scalar>(m: Mat3x2, p: Vec2) -> bool {
    &&& dot2_fits::<T>(p.x, m.m11, p.y, m.m21)
    &&& T::fits(p.x * m.m11 + p.y * m.m21 + m.m31)
    &&& dot2_fits::<T>(p.x, m.m12, p.y, m.m22)
    &&& T::fits(p.x * m.m12 + p.y * m.m22 + m.m32)
}

/// The image of the direction `v` under `m` can be computed in `T`.
pub open spec fn apply_vector2_fits<T: Scalar>(m: Mat3x2, v: Vec2) -> bool {
    dot2_fits::<T>(v.x, m.m11, v.y, m.m21) && dot2_fits::<T>(v.x, m.m12, v.y, m.m22)
}

/// The image of the covector `n` under the transpose of `m` can be computed in `T`.
pub open spec fn apply_transposed2_fits<T: Scalar>(m: Mat3x2, n: Vec2) -> bool {
    dot2_fits::<T>(n.x, m.m11, n.y, m.m12) && dot2_fits::<T>(n.x, m.m21, n.y, m.m22)
}

/// The four corners of the box from `lo` to `hi`, in the order in which a
/// transformed box is fitted around their images.
pub open spec fn corners2(lo: Vec2, hi: Vec2) -> Seq<Vec2> {
    seq![lo, hi, Vec2 { x: hi.x, y: lo.y }, Vec2 { x: lo.x, y: hi.y }]
}

/// Product of two 3x2 arrays, read as affine maps.
pub fn matmul2<T: Scalar>(a: [[T; 2]; 3], b: [[T; 2]; 3]) -> (r: [[T; 2]; 3])
    requires
        mat3x2_mul_fits::<T>(mat3x2_of(a), mat3x2_of(b)),
    ensures
        mat3x2_of(r) == mat3x2_of(a).mul(mat3x2_of(b)),
{
    let a11 = a[0][0];
    let a12 = a[0][1];
    let a21 = a[1][0];
    let a22 = a[1][1];
    let a31 = a[2][0];
    let a32 = a[2][1];
    let b11 = b[0][0];
    let b12 = b[0][1];
    let b21 = b[1][0];
    let b22 = b[1][1];
    let b31 = b[2][0];
    let b32 = b[2][1];
    [
        [dot2(a11, b11, a12, b21), dot2(a11, b12, a12, b22)],
        [dot2(a21, b11, a22, b21), dot2(a21, b12, a22, b22)],
        [dot2(a31, b11, a32, b21).add(b31), dot2(a31, b12, a32, b22).add(b32)],
    ]
}

impl<T: Scalar, Src, Dst> Transform2<T, Src, Dst> {
    /// The forward matrix.
    pub closed spec fn matrix(&self) -> Mat3x2 {
        mat3x2_of(self.mat)
    }

    /// The cached matrix for the way back.
    pub closed spec fn inverse_matrix(&self) -> Mat3x2 {
        mat3x2_of(self.mat_inv)
    }

    /// Whether the cached matrix undoes the forward matrix exactly, on both
    /// sides.
    pub open spec fn is_exact(&self) -> bool {
        self@.is_exact()
    }

    /// Transforms with the same pair of matrices are the same value.
    pub proof fn lemma_view_injective(self, other: Self)
        requires
            self@ == other@,
        ensures
            self == other,
    {
        self.mat[0][0].lemma_val_injective(other.mat[0][0]);
        self.mat_inv[0][0].lemma_val_injective(other.mat_inv[0][0]);
        self.mat[0][1].lemma_val_injective(other.mat[0][1]);
        self.mat_inv[0][1].lemma_val_injective(other.mat_inv[0][1]);
        self.mat[1][0].lemma_val_injective(other.mat[1][0]);
        self.mat_inv[1][0].lemma_val_injective(other.mat_inv[1][0]);
        self.mat[1][1].lemma_val_injective(other.mat[1][1]);
        self.mat_inv[1][1].lemma_val_injective(other.mat_inv[1][1]);
        self.mat[2][0].lemma_val_injective(other.mat[2][0]);
        self.mat_inv[2][0].lemma_val_injective(other.mat_inv[2][0]);
        self.mat[2][1].lemma_val_injective(other.mat[2][1]);
        self.mat_inv[2][1].lemma_val_injective(other.mat_inv[2][1]);
        assert(self.mat[0] =~= other.mat[0]);
        assert(self.mat_inv[0] =~= other.mat_inv[0]);
        assert(self.mat[1] =~= other.mat[1]);
        assert(self.mat_inv[1] =~= other.mat_inv[1]);
        assert(self.mat[2] =~= other.mat[2]);
        assert(self.mat_inv[2] =~= other.mat_inv[2]);
        assert(self.mat =~= other.mat);
        assert(self.mat_inv =~= other.mat_inv);
    }

    /// The transform with the given matrix and cached inverse, taken as they are.
    pub(crate) fn new_raw(mat: [[T; 2]; 3], mat_inv: [[T; 2]; 3]) -> (r: Self)
        ensures
            r.matrix() == mat3x2_of(mat),
            r.inverse_matrix() == mat3x2_of(mat_inv),
    {
        Self { mat, mat_inv, _unit: PhantomData }
    }

    /// The transform that leaves everything where it is.
    pub fn identity() -> (r: Self)
        ensures
            r.matrix() == Mat3x2::identity(),
            r.inverse_matrix() == Mat3x2::identity(),
            r.is_exact(),
    {
        let o = T::zero();
        let l = T::one();
        let mat = [[l, o], [o, l], [o, o]];
        proof {
            lemma_translation_exact(Vec3::zero(), Vec2::zero());
        }
        Self::new_raw(mat, mat)
    }

    /// Whether the forward matrix is exactly the identity matrix.
    pub fn is_identity(&self) -> (r: bool)
        ensures
            r == (self.matrix() == Mat3x2::identity()),
    {
        let o = T::zero();
        let l = T::one();
        self.mat[0][0].eq(l) && self.mat[0][1].eq(o) && self.mat[1][0].eq(o) && self.mat[1][1].eq(
            l,
        ) && self.mat[2][0].eq(o) && self.mat[2][1].eq(o)
    }

    /// The same matrices with the spaces forgotten.
    pub fn erase_unit(&self) -> (r: Transform2<T, UnknownUnit, UnknownUnit>)
        ensures
            r.matrix() == self.matrix(),
            r.inverse_matrix() == self.inverse_matrix(),
    {
        Transform2 { mat: self.mat, mat_inv: self.mat_inv, _unit: PhantomData }
    }

    /// The transform with the given matrix, which must be invertible.
    pub fn new(mat: [[T; 2]; 3]) -> (r: Self)
        requires
            det2_fits::<T>(mat3x2_of(mat)),
            mat3x2_of(mat).det() != 0,
            inverse2_fits::<T>(mat3x2_of(mat)),
        ensures
            r.matrix() == mat3x2_of(mat),
            r.inverse_matrix() == mat3x2_of(mat).adjugate().scale(
                trunc_div(1, mat3x2_of(mat).det()),
            ),
            mat3x2_of(mat).det() == 1 || mat3x2_of(mat).det() == -1 ==> r.is_exact(),
    {
        match Self::try_new(mat) {
            Some(t) => t,
            None => {
                proof {
                    assert(false);
                }
                Self::new_raw(mat, mat)
            },
        }
    }

    /// The transform with the given matrix, or nothing when the determinant is
    /// exactly zero. The cached inverse is the adjugate scaled by the
    /// reciprocal of the determinant.
    pub fn try_new(mat: [[T; 2]; 3]) -> (r: Option<Self>)
        requires
            det2_fits::<T>(mat3x2_of(mat)),
            mat3x2_of(mat).det() != 0 ==> inverse2_fits::<T>(mat3x2_of(mat)),
        ensures
            r.is_none() <==> mat3x2_of(mat).det() == 0,
            r matches Some(t) ==> t.matrix() == mat3x2_of(mat) && t.inverse_matrix() == mat3x2_of(
                mat,
            ).adjugate().scale(trunc_div(1, mat3x2_of(mat).det())),
            r matches Some(t) ==> (mat3x2_of(mat).det() == 1 || mat3x2_of(mat).det() == -1
                ==> t.is_exact()),
    {
        let m11 = mat[0][0];
        let m12 = mat[0][1];
        let m21 = mat[1][0];
        let m22 = mat[1][1];
        let m31 = mat[2][0];
        let m32 = mat[2][1];
        proof {
            assert(m21.val() * m12.val() == m12.val() * m21.val()) by (nonlinear_arith);
        }
        let det = m11.mul(m22).sub(m21.mul(m12));
        let o = T::zero();
        if det.eq(o) {
            return None;
        }
        let inv_det = T::one().div(det);
        let mat_inv = [
            [inv_det.mul(m22), inv_det.mul(o.sub(m12))],
            [inv_det.mul(o.sub(m21)), inv_det.mul(m11)],
            [
                inv_det.mul(m21.mul(m32).sub(m22.mul(m31))),
                inv_det.mul(m12.mul(m31).sub(m11.mul(m32))),
            ],
        ];
        let t = Self::new_raw(mat, mat_inv);
        proof {
            if mat3x2_of(mat).det() == 1 || mat3x2_of(mat).det() == -1 {
                lemma_unimodular_inverse2(mat3x2_of(mat));
            }
        }
        Some(t)
    }

    /// The transform that moves every point by `v`.
    pub fn translation(v: Vector2<T, Src>) -> (r: Self)
        requires
            v@.neg().fits::<T>(),
        ensures
            r.matrix() == Mat3x2::translation(v@),
            r.inverse_matrix() == Mat3x2::translation(v@.neg()),
            r.is_exact(),
    {
        proof {
            lemma_translation_exact(Vec3::zero(), v@);
        }
        let o = T::zero();
        let l = T::one();
        let x = v.x;
        let y = v.y;
        Self::new_raw([[l, o], [o, l], [x, y]], [[l, o], [o, l], [o.sub(x), o.sub(y)]])
    }

    /// The rotation about the origin whose angle has cosine `c` and sine `s`.
    /// The cached inverse is the rotation the other way.
    pub fn rotation_from_sin_cos(s: T, c: T) -> (r: Self)
        requires
            T::fits(-s.val()),
        ensures
            r.matrix() == Mat3x2::rotation(c.val(), s.val()),
            r.inverse_matrix() == Mat3x2::rotation(c.val(), -s.val()),
            c.val() * c.val() + s.val() * s.val() == 1 ==> r.is_exact(),
    {
        proof {
            if c.val() * c.val() + s.val() * s.val() == 1 {
                lemma_rotation2_exact(s.val(), c.val());
            }
        }
        let o = T::zero();
        Self::new_raw([[c, s], [o.sub(s), c], [o, o]], [[c, o.sub(s)], [s, c], [o, o]])
    }

    /// The rotation about the origin by `theta`. The cached inverse is the
    /// rotation the other way; it undoes the rotation exactly where the
    /// squares of the sine and the cosine add up to one.
    pub fn rotation(theta: Angle<T>) -> (r: Self) where T: Trig
        requires
            T::fits(-theta.0.sin_spec().val()),
        ensures
            r.matrix() == Mat3x2::rotation(theta.0.cos_spec().val(), theta.0.sin_spec().val()),
            r.inverse_matrix() == Mat3x2::rotation(
                theta.0.cos_spec().val(),
                -theta.0.sin_spec().val(),
            ),
            unit_pair(theta.0) ==> r.is_exact(),
    {
        let c = theta.radians().cos();
        let s = theta.radians().sin();
        Self::rotation_from_sin_cos(s, c)
    }

    /// The matrix form of a rotation by an angle.
    pub fn from_rotation(t: Rotation2<T, Src, Dst>) -> (r: Self) where T: Trig
        requires
            T::fits(-t.angle.0.sin_spec().val()),
        ensures
            r.matrix() == Mat3x2::rotation(t.angle.0.cos_spec().val(), t.angle.0.sin_spec().val()),
            r.inverse_matrix() == Mat3x2::rotation(
                t.angle.0.cos_spec().val(),
                -t.angle.0.sin_spec().val(),
            ),
            unit_pair(t.angle.0) ==> r.is_exact(),
    {
        Self::rotation(t.angle)
    }

    /// The transform that stretches the axes by `x` and `y`. The cached
    /// inverse stretches by the reciprocals, rounded toward zero.
    pub fn scale(x: Scale<T, Src, Dst>, y: Scale<T, Src, Dst>) -> (r: Self)
        requires
            x@ != 0,
            y@ != 0,
            T::fits(trunc_div(1, x@)),
            T::fits(trunc_div(1, y@)),
        ensures
            r.matrix() == Mat3x2::scaling(x@, y@),
            r.inverse_matrix() == Mat3x2::scaling(trunc_div(1, x@), trunc_div(1, y@)),
            (x@ == 1 || x@ == -1) && (y@ == 1 || y@ == -1) ==> r.is_exact(),
    {
        proof {
            if (x@ == 1 || x@ == -1) && (y@ == 1 || y@ == -1) {
                lemma_unit_scaling_exact(x@, y@, 1);
            }
        }
        let o = T::zero();
        let l = T::one();
        let x = x.get();
        let y = y.get();
        Self::new_raw([[x, o], [o, y], [o, o]], [[l.div(x), o], [o, l.div(y)], [o, o]])
    }

    /// The determinant of the linear part.
    pub fn determinant(&self) -> (r: T)
        requires
            det2_fits::<T>(self.matrix()),
        ensures
            r.val() == self.matrix().det(),
    {
        let m11 = self.mat[0][0];
        let m12 = self.mat[0][1];
        let m21 = self.mat[1][0];
        let m22 = self.mat[1][1];
        m11.mul(m22).sub(m12.mul(m21))
    }

    /// Whether the determinant is other than zero.
    pub fn is_invertible(&self) -> (r: bool)
        requires
            det2_fits::<T>(self.matrix()),
        ensures
            r == (self.matrix().det() != 0),
    {
        self.determinant().ne(T::zero())
    }

    /// The matrix form of a translation.
    pub fn from_translation(t: Translation2<T, Src, Dst>) -> (r: Self)
        requires
            t@.neg().fits::<T>(),
        ensures
            r.matrix() == Mat3x2::translation(t@),
            r.inverse_matrix() == Mat3x2::translation(t@.neg()),
            r.is_exact(),
    {
        Self::translation(t.to_vector())
    }

    /// The matrix form of a uniform scale.
    pub fn from_scale(t: Scale<T, Src, Dst>) -> (r: Self)
        requires
            t@ != 0,
            T::fits(trunc_div(1, t@)),
        ensures
            r.matrix() == Mat3x2::scaling(t@, t@),
            r.inverse_matrix() == Mat3x2::scaling(trunc_div(1, t@), trunc_div(1, t@)),
    {
        Self::scale(t, t)
    }
}

impl<T: Scalar, Src, Dst> View for Transform2<T, Src, Dst> {
    type V = Transform2Model;

    /// The pair of integer matrices.
    open spec fn view(&self) -> Transform2Model {
        Transform2Model { mat: self.matrix(), inv: self.inverse_matrix() }
    }
}

impl<T: Scalar, Src, Dst> PartialEqSpecImpl for Transform2<T, Src, Dst> {
    open spec fn obeys_eq_spec() -> bool {
        true
    }

    open spec fn eq_spec(&self, other: &Self) -> bool {
        self.matrix() == other.matrix()
    }
}

/// Two transforms are equal when their forward matrices are.
impl<T: Scalar, Src, Dst> PartialEq for Transform2<T, Src, Dst> {
    fn eq(&self, other: &Self) -> (r: bool) {
        self.mat[0][0].eq(other.mat[0][0]) && self.mat[0][1].eq(other.mat[0][1])
            && self.mat[1][0].eq(other.mat[1][0]) && self.mat[1][1].eq(other.mat[1][1])
            && self.mat[2][0].eq(other.mat[2][0]) && self.mat[2][1].eq(other.mat[2][1])
    }
}

impl<T: Scalar, Src, Dst> Eq for Transform2<T, Src, Dst> {
}

impl<T: Scalar, Src, Dst> Transformation<T, Src, Dst> for Transform2<T, Src, Dst> {
    type Inverse = Transform2<T, Dst, Src>;

    open spec fn is_identity_spec(&self) -> bool {
        self.matrix() == Mat3x2::identity()
    }

    open spec fn inverse_req(&self) -> bool {
        true
    }

    open spec fn inverse_ensures(&self, r: Transform2<T, Dst, Src>) -> bool {
        r.matrix() == self.inverse_matrix() && r.inverse_matrix() == self.matrix()
    }

    fn identity() -> (r: Self) {
        proof {
            T::lemma_unit_fits();
        }
        Self::translation(Vector2::zero())
    }

    fn is_identity(&self) -> (b: bool) {
        Transform2::is_identity(self)
    }

    /// The two matrices change places; nothing is recomputed.
    fn inverse(&self) -> (r: Transform2<T, Dst, Src>) {
        Transform2::new_raw(self.mat_inv, self.mat)
    }
}

impl<T: Scalar, Src, Dst> Transform<Point2<T, Src>> for Transform2<T, Src, Dst> {
    type Output = Point2<T, Dst>;

    open spec fn transform_req(&self, p: Point2<T, Src>) -> bool {
        apply_point2_fits::<T>(self.matrix(), p@)
    }

    open spec fn transform_ensures(&self, p: Point2<T, Src>, r: Point2<T, Dst>) -> bool {
        r@ == self.matrix().apply_point(p@)
    }

    fn transform(&self, p: Point2<T, Src>) -> (r: Point2<T, Dst>) {
        let m11 = self.mat[0][0];
        let m12 = self.mat[0][1];
        let m21 = self.mat[1][0];
        let m22 = self.mat[1][1];
        let dx = self.mat[2][0];
        let dy = self.mat[2][1];
        Point2::new(dot2(p.x, m11, p.y, m21).add(dx), dot2(p.x, m12, p.y, m22).add(dy))
    }
}

impl<T: Scalar, Src, Dst> Transform<Vector2<T, Src>> for Transform2<T, Src, Dst> {
    type Output = Vector2<T, Dst>;

    open spec fn transform_req(&self, v: Vector2<T, Src>) -> bool {
        apply_vector2_fits::<T>(self.matrix(), v@)
    }

    open spec fn transform_ensures(&self, v: Vector2<T, Src>, r: Vector2<T, Dst>) -> bool {
        r@ == self.matrix().apply_vector(v@)
    }

    /// A direction ignores the offset.
    fn transform(&self, v: Vector2<T, Src>) -> (r: Vector2<T, Dst>) {
        let m11 = self.mat[0][0];
        let m12 = self.mat[0][1];
        let m21 = self.mat[1][0];
        let m22 = self.mat[1][1];
        Vector2::new(dot2(v.x, m11, v.y, m21), dot2(v.x, m12, v.y, m22))
    }
}

impl<T: Scalar, Src, Dst> Transform<Vector2<T, Normal<Src>>> for Transform2<T, Src, Dst> {
    type Output = Vector2<T, Dst>;

    open spec fn transform_req(&self, n: Vector2<T, Normal<Src>>) -> bool {
        apply_transposed2_fits::<T>(self.inverse_matrix(), n@)
    }

    open spec fn transform_ensures(&self, n: Vector2<T, Normal<Src>>, r: Vector2<T, Dst>) -> bool {
        r@ == self.inverse_matrix().apply_transposed(n@)
    }

    /// A normal goes through the transpose of the cached inverse.
    fn transform(&self, n: Vector2<T, Normal<Src>>) -> (r: Vector2<T, Dst>) {
        let m11 = self.mat_inv[0][0];
        let m21 = self.mat_inv[0][1];
        let m12 = self.mat_inv[1][0];
        let m22 = self.mat_inv[1][1];
        Vector2::new(dot2(n.x, m11, n.y, m21), dot2(n.x, m12, n.y, m22))
    }
}

impl<T: Scalar, Src, Dst> Transform<Box2<T, Src>> for Transform2<T, Src, Dst> {
    type Output = Box2<T, Dst>;

    open spec fn transform_req(&self, b: Box2<T, Src>) -> bool {
        forall|i: int|
            0 <= i < 4
                ==> apply_point2_fits::<T>(self.matrix(), #[trigger] corners2(b.min@, b.max@)[i])
    }

    open spec fn transform_ensures(&self, b: Box2<T, Src>, r: Box2<T, Dst>) -> bool {
        tight_bounds2(
            corners2(b.min@, b.max@).map_values(|c: Vec2| self.matrix().apply_point(c)),
            r.min@,
            r.max@,
        )
    }

    /// The tight box around the images of all four corners.
    fn transform(&self, b: Box2<T, Src>) -> (r: Box2<T, Dst>) {
        proof {
            let cs = corners2(b.min@, b.max@);
            assert(apply_point2_fits::<T>(self.matrix(), cs[0]));
            assert(apply_point2_fits::<T>(self.matrix(), cs[1]));
            assert(apply_point2_fits::<T>(self.matrix(), cs[2]));
            assert(apply_point2_fits::<T>(self.matrix(), cs[3]));
        }
        let points = [
            self.transform(b.min),
            self.transform(b.max),
            self.transform(Point2::new(b.max.x, b.min.y)),
            self.transform(Point2::new(b.min.x, b.max.y)),
        ];
        let slice = points.as_slice();
        let r = Box2::from_points(slice);
        proof {
            let images = corners2(b.min@, b.max@).map_values(
                |c: Vec2| self.matrix().apply_point(c),
            );
            assert(views2(slice@) =~= images);
        }
        r
    }
}

impl<T: Scalar, A, B, C> MulSpecImpl<Transform2<T, B, C>> for Transform2<T, A, B> {
    open spec fn obeys_mul_spec() -> bool {
        true
    }

    open spec fn mul_req(self, rhs: Transform2<T, B, C>) -> bool {
        &&& mat3x2_mul_fits::<T>(self.matrix(), rhs.matrix())
        &&& mat3x2_mul_fits::<T>(rhs.inverse_matrix(), self.inverse_matrix())
    }

    open spec fn mul_spec(self, rhs: Transform2<T, B, C>) -> Transform2<T, A, C> {
        choose|r: Transform2<T, A, C>| r@ == self@.compose(rhs@)
    }
}

/// `a * b` applies `a` first and `b` second. The cached inverse of the product
/// is the product of the cached inverses in the opposite order; nothing is
/// inverted anew.
impl<T: Scalar, A, B, C> Mul<Transform2<T, B, C>> for Transform2<T, A, B> {
    type Output = Transform2<T, A, C>;

    fn mul(self, rhs: Transform2<T, B, C>) -> (r: Transform2<T, A, C>)
        ensures
            r.matrix() == self.matrix().mul(rhs.matrix()),
            r.inverse_matrix() == rhs.inverse_matrix().mul(self.inverse_matrix()),
            self.is_exact() && rhs.is_exact() ==> r.is_exact(),
    {
        proof {
            if self.is_exact() && rhs.is_exact() {
                lemma_composition_exact2(self@, rhs@);
            }
        }
        let mat = matmul2(self.mat, rhs.mat);
        let mat_inv = matmul2(rhs.mat_inv, self.mat_inv);
        let r = Transform2::new_raw(mat, mat_inv);
        proof {
            r.lemma_view_injective(choose|c: Transform2<T, A, C>| c@ == self@.compose(rhs@));
        }
        r
    }
}

impl<'a, T: Scalar, A, B, C> MulSpecImpl<Transform2<T, B, C>> for &'a Transform2<T, A, B> {
    open spec fn obeys_mul_spec() -> bool {
        true
    }

    open spec fn mul_req(self, rhs: Transform2<T, B, C>) -> bool {
        &&& mat3x2_mul_fits::<T>(self.matrix(), rhs.matrix())
        &&& mat3x2_mul_fits::<T>(rhs.inverse_matrix(), self.inverse_matrix())
    }

    open spec fn mul_spec(self, rhs: Transform2<T, B, C>) -> Transform2<T, A, C> {
        choose|r: Transform2<T, A, C>| r@ == self@.compose(rhs@)
    }
}

impl<'a, T: Scalar, A, B, C> Mul<Transform2<T, B, C>> for &'a Transform2<T, A, B> {
    type Output = Transform2<T, A, C>;

    fn mul(self, rhs: Transform2<T, B, C>) -> (r: Transform2<T, A, C>)
        ensures
            r.matrix() == self.matrix().mul(rhs.matrix()),
            r.inverse_matrix() == rhs.inverse_matrix().mul(self.inverse_matrix()),
            self.is_exact() && rhs.is_exact() ==> r.is_exact(),
    {
        let r = *self * rhs;
        proof {
            r.lemma_view_injective(choose|c: Transform2<T, A, C>| c@ == self@.compose(rhs@));
        }
        r
    }
}

impl<'b, T: Scalar, A, B, C> MulSpecImpl<&'b Transform2<T, B, C>> for Transform2<T, A, B> {
    open spec fn obeys_mul_spec() -> bool {
        true
    }

    open spec fn mul_req(self, rhs: &'b Transform2<T, B, C>) -> bool {
        &&& mat3x2_mul_fits::<T>(self.matrix(), rhs.matrix())
        &&& mat3x2_mul_fits::<T>(rhs.inverse_matrix(), self.inverse_matrix())
    }

    open spec fn mul_spec(self, rhs: &'b Transform2<T, B, C>) -> Transform2<T, A, C> {
        choose|r: Transform2<T, A, C>| r@ == self@.compose(rhs@)
    }
}

impl<'b, T: Scalar, A, B, C> Mul<&'b Transform2<T, B, C>> for Transform2<T, A, B> {
    type Output = Transform2<T, A, C>;

    fn mul(self, rhs: &'b Transform2<T, B, C>) -> (r: Transform2<T, A, C>)
        ensures
            r.matrix() == self.matrix().mul(rhs.matrix()),
            r.inverse_matrix() == rhs.inverse_matrix().mul(self.inverse_matrix()),
            self.is_exact() && rhs.is_exact() ==> r.is_exact(),
    {
        let r = self * *rhs;
        proof {
            r.lemma_view_injective(choose|c: Transform2<T, A, C>| c@ == self@.compose(rhs@));
        }
        r
    }
}

impl<'a, 'b, T: Scalar, A, B, C> MulSpecImpl<&'b Transform2<T, B, C>> for &'a Transform2<T, A, B> {
    open spec fn obeys_mul_spec() -> bool {
        true
    }

    open spec fn mul_req(self, rhs: &'b Transform2<T, B, C>) -> bool {
        &&& mat3x2_mul_fits::<T>(self.matrix(), rhs.matrix())
        &&& mat3x2_mul_fits::<T>(rhs.inverse_matrix(), self.inverse_matrix())
    }

    open spec fn mul_spec(self, rhs: &'b Transform2<T, B, C>) -> Transform2<T, A, C> {
        choose|r: Transform2<T, A, C>| r@ == self@.compose(rhs@)
    }
}

impl<'a, 'b, T: Scalar, A, B, C> Mul<&'b Transform2<T, B, C>> for &'a Transform2<T, A, B> {
    type Output = Transform2<T, A, C>;

    fn mul(self, rhs: &'b Transform2<T, B, C>) -> (r: Transform2<T, A, C>)
        ensures
            r.matrix() == self.matrix().mul(rhs.matrix()),
            r.inverse_matrix() == rhs.inverse_matrix().mul(self.inverse_matrix()),
            self.is_exact() && rhs.is_exact() ==> r.is_exact(),
    {
        let r = *self * *rhs;
        proof {
            r.lemma_view_injective(choose|c: Transform2<T, A, C>| c@ == self@.compose(rhs@));
        }
        r
    }
}

} // verus!

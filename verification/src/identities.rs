//! Algebraic identities of transforms, proved once for every scalar type:
//! what composing, inverting and applying them is guaranteed to give.
use vstd::prelude::*;
use crate::homogen::to_point3_spec;
use crate::model::{
    lemma_mul_congruent, tight_bounds2, tight_bounds3, Mat3x2, Mat4, Quat, Transform2Model,
    Transform3Model, Vec2, Vec3,
};
use crate::num::{lemma_quotient_by_positive, trunc_div, Scalar};
use crate::point::Point3;
use crate::rotation::Rotation3;
use crate::transform2::Transform2;
use crate::transform3::{
    apply_transposed3_fits, apply_vector3_fits, lemma_adjugate_inverts, lemma_mul_negated, mat4_mul_fits, mat4_of_quat, rotation3_spec,
    Transform3,
};
use crate::vector::Vector3;

verus! {

/// Composing with the identity, on either side, changes nothing.
pub proof fn lemma_identity_neutral3<T: Scalar, Src, Dst>(t: Transform3<T, Src, Dst>)
    ensures
        t@.compose(Transform3Model::identity()) == t@,
        Transform3Model::identity().compose(t@) == t@,
{
    let m = t@.mat;
    let n = t@.inv;
    let i = Mat4::identity();
    assert(m.mul(i) == m);
    assert(i.mul(m) == m);
    assert(n.mul(i) == n);
    assert(i.mul(n) == n);
}

/// Composing with the identity, on either side, changes nothing.
pub proof fn lemma_identity_neutral2<T: Scalar, Src, Dst>(t: Transform2<T, Src, Dst>)
    ensures
        t@.compose(Transform2Model::identity()) == t@,
        Transform2Model::identity().compose(t@) == t@,
{
    let m = t@.mat;
    let n = t@.inv;
    let i = Mat3x2::identity();
    assert(m.mul(i) == m);
    assert(i.mul(m) == m);
    assert(n.mul(i) == n);
    assert(i.mul(n) == n);
}

/// A translation composed with the identity, on either side, is the same
/// translation, entry for entry, and both products can be computed whenever
/// the translation itself can be built.
pub proof fn lemma_translation_identity3<T: Scalar, U>(v: Vector3<T, U>)
    requires
        v@.neg().fits::<T>(),
    ensures
        Transform3Model::translation(v@).compose(Transform3Model::identity())
            == Transform3Model::translation(v@),
        Transform3Model::identity().compose(Transform3Model::translation(v@))
            == Transform3Model::translation(v@),
        mat4_mul_fits::<T>(Mat4::translation(v@), Mat4::identity()),
        mat4_mul_fits::<T>(Mat4::identity(), Mat4::translation(v@.neg())),
        mat4_mul_fits::<T>(Mat4::identity(), Mat4::translation(v@)),
        mat4_mul_fits::<T>(Mat4::translation(v@.neg()), Mat4::identity()),
{
    T::lemma_unit_fits();
    v.x.lemma_val_fits();
    v.y.lemma_val_fits();
    v.z.lemma_val_fits();
    let t = Mat4::translation(v@);
    let n = Mat4::translation(v@.neg());
    let i = Mat4::identity();
    assert(t.mul(i) == t);
    assert(i.mul(t) == t);
    assert(n.mul(i) == n);
    assert(i.mul(n) == n);
}

/// A translation leaves directions as they are.
pub proof fn lemma_translation_keeps_vectors3(t: Vec3, v: Vec3)
    ensures
        Mat4::translation(t).apply_vector(v) == v,
{
    let r = Mat4::translation(t).apply_vector(v);
    assert(r.x == v.x && r.y == v.y && r.z == v.z);
}

/// A translation leaves normals as they are: they go through the transpose
/// of the way back, whose linear part is the identity.
pub proof fn lemma_translation_keeps_normals3(t: Vec3, n: Vec3)
    ensures
        Transform3Model::translation(t).inv.apply_transposed(n) == n,
{
    let m = Transform3Model::translation(t).inv;
    assert(m == Mat4::translation(t.neg()));
    let r = m.apply_transposed(n);
    assert(r.x == n.x && r.y == n.y && r.z == n.z);
}

/// A translation leaves directions and normals as they are.
pub proof fn lemma_translation_keeps_vectors2(t: Vec2, v: Vec2)
    ensures
        Mat3x2::translation(t).apply_vector(v) == v,
        Transform2Model::translation(t).inv.apply_transposed(v) == v,
{
    let r = Mat3x2::translation(t).apply_vector(v);
    assert(r.x == v.x && r.y == v.y);
    let m = Transform2Model::translation(t).inv;
    assert(m == Mat3x2::translation(t.neg()));
    let s = m.apply_transposed(v);
    assert(s.x == v.x && s.y == v.y);
}

/// Translations compose by adding their offsets; in particular a translation
/// composed with itself is the translation by twice the offset.
pub proof fn lemma_translations_add3(u: Vec3, v: Vec3)
    ensures
        Transform3Model::translation(u).compose(Transform3Model::translation(v))
            == Transform3Model::translation(u.add(v)),
        Transform3Model::translation(v).compose(Transform3Model::translation(v))
            == Transform3Model::translation(v.scale(2)),
{
    let a = Mat4::translation(u);
    let b = Mat4::translation(v);
    assert(a.mul(b) == Mat4::translation(u.add(v)));
    assert(Mat4::translation(v.neg()).mul(Mat4::translation(u.neg())) == Mat4::translation(
        u.add(v).neg(),
    ));
    assert(b.mul(b) == Mat4::translation(v.scale(2)));
    assert(Mat4::translation(v.neg()).mul(Mat4::translation(v.neg())) == Mat4::translation(
        v.scale(2).neg(),
    ));
}

/// Translations compose by adding their offsets.
pub proof fn lemma_translations_add2(u: Vec2, v: Vec2)
    ensures
        Transform2Model::translation(u).compose(Transform2Model::translation(v))
            == Transform2Model::translation(u.add(v)),
{
    assert(Mat3x2::translation(u).mul(Mat3x2::translation(v)) == Mat3x2::translation(u.add(v)));
    assert(Mat3x2::translation(v.neg()).mul(Mat3x2::translation(u.neg())) == Mat3x2::translation(
        u.add(v).neg(),
    ));
}

/// A translation and the translation back undo each other exactly.
pub proof fn lemma_translation_exact(u: Vec3, v: Vec2)
    ensures
        Transform3Model::translation(u).is_exact(),
        Transform2Model::translation(v).is_exact(),
        Transform3Model::identity().is_exact(),
        Transform2Model::identity().is_exact(),
{
    assert(Mat4::translation(u).mul(Mat4::translation(u.neg())) == Mat4::identity());
    assert(Mat4::translation(u.neg()).mul(Mat4::translation(u)) == Mat4::identity());
    assert(Mat3x2::translation(v).mul(Mat3x2::translation(v.neg())) == Mat3x2::identity());
    assert(Mat3x2::translation(v.neg()).mul(Mat3x2::translation(v)) == Mat3x2::identity());
    assert(Mat4::identity().mul(Mat4::identity()) == Mat4::identity());
    assert(Mat3x2::identity().mul(Mat3x2::identity()) == Mat3x2::identity());
}

/// The inverse of a composition is the composition of the inverses in the
/// opposite order.
pub proof fn lemma_inverse_of_composition3<T: Scalar, A, B, C>(
    a: Transform3<T, A, B>,
    b: Transform3<T, B, C>,
)
    ensures
        a@.compose(b@).inverse() == b@.inverse().compose(a@.inverse()),
{
}

/// The inverse of a composition is the composition of the inverses in the
/// opposite order.
pub proof fn lemma_inverse_of_composition2<T: Scalar, A, B, C>(
    a: Transform2<T, A, B>,
    b: Transform2<T, B, C>,
)
    ensures
        a@.compose(b@).inverse() == b@.inverse().compose(a@.inverse()),
{
}

/// Inverting twice gives the transform back, and inverting keeps exactness.
pub proof fn lemma_inverse_involution(a: Transform3Model, b: Transform2Model)
    ensures
        a.inverse().inverse() == a,
        b.inverse().inverse() == b,
        a.is_exact() == a.inverse().is_exact(),
        b.is_exact() == b.inverse().is_exact(),
{
}

/// Any box that holds all the points holds their tight bounds: the tight
/// bounds are the smallest axis-aligned box around the points.
pub proof fn lemma_tight_bounds_minimal3(
    points: Seq<Vec3>,
    lo: Vec3,
    hi: Vec3,
    lo2: Vec3,
    hi2: Vec3,
)
    requires
        tight_bounds3(points, lo, hi),
        forall|i: int| 0 <= i < points.len() ==> (#[trigger] points[i]).between(lo2, hi2),
    ensures
        lo.between(lo2, hi2),
        hi.between(lo2, hi2),
{
}

/// Any box that holds all the points holds their tight bounds.
pub proof fn lemma_tight_bounds_minimal2(
    points: Seq<Vec2>,
    lo: Vec2,
    hi: Vec2,
    lo2: Vec2,
    hi2: Vec2,
)
    requires
        tight_bounds2(points, lo, hi),
        forall|i: int| 0 <= i < points.len() ==> (#[trigger] points[i]).between(lo2, hi2),
    ensures
        lo.between(lo2, hi2),
        hi.between(lo2, hi2),
{
}

/// Factoring a common scale out of a two-term cross sum.
proof fn lemma_scaled_cross(a: int, b: int, c: int, e: int, d: int)
    by (nonlinear_arith)
    ensures
        a * (d * b) + c * (d * (-e)) == d * (a * b - c * e),
        a * (d * (-e)) + c * (d * b) == d * (b * c - e * a),
{
}

/// Factoring a common scale out of a two-term cross sum, scale on the left.
proof fn lemma_scaled_cross_left(a: int, b: int, c: int, e: int, d: int)
    ensures
        (d * b) * a + (d * (-e)) * c == d * (a * b - e * c),
        (d * (-e)) * a + (d * b) * c == d * (b * c - e * a),
{
    lemma_scale_moves(d, b, a);
    lemma_scale_moves(d, -e, c);
    lemma_scale_moves(d, -e, a);
    lemma_scale_moves(d, b, c);
    lemma_mul_commutes(a, b);
    lemma_mul_negated(c, e);
    lemma_mul_negated(a, e);
    lemma_distribute23(b * a, (-e) * c, 0, d);
    lemma_distribute23(b * c, (-e) * a, 0, d);
}

/// Two scaled products that differ only in order and sign cancel.
proof fn lemma_scaled_zero(a: int, b: int, d: int)
    by (nonlinear_arith)
    ensures
        a * (d * (-b)) + b * (d * a) == 0,
        a * (d * b) + b * (d * (-a)) == 0,
        (d * b) * a + (d * (-a)) * b == 0,
        (d * (-b)) * a + (d * a) * b == 0,
{
}

/// The offset row of a matrix times its scaled adjugate cancels.
proof fn lemma_scaled_cancel(a: int, b: int, c: int, e: int, d: int)
    by (nonlinear_arith)
    ensures
        a * (d * b) + c * (d * (-e)) + d * (e * c - b * a) == 0,
        a * (d * (-b)) + c * (d * e) + d * (b * a - e * c) == 0,
{
}

/// The offset row of a scaled adjugate times its matrix: the two columns of
/// the linear part recombine into the determinant.
proof fn lemma_offset_row(a: int, b: int, c: int, e: int, x: int, y: int, d: int)
    ensures
        (d * (c * y - e * x)) * a + (d * (b * x - a * y)) * c + x == x - (d * (a * e - b * c)) * x,
        (d * (c * y - e * x)) * b + (d * (b * x - a * y)) * e + y == y - (d * (a * e - b * c)) * y,
{
    assert((d * (c * y - e * x)) * a == d * (c * y * a) - d * (e * x * a)) by (nonlinear_arith);
    assert((d * (b * x - a * y)) * c == d * (b * x * c) - d * (a * y * c)) by (nonlinear_arith);
    assert((d * (a * e - b * c)) * x == d * (a * e * x) - d * (b * c * x)) by (nonlinear_arith);
    assert(c * y * a == a * y * c) by (nonlinear_arith);
    assert(e * x * a == a * e * x) by (nonlinear_arith);
    assert(b * x * c == b * c * x) by (nonlinear_arith);
    assert((d * (c * y - e * x)) * b == d * (c * y * b) - d * (e * x * b)) by (nonlinear_arith);
    assert((d * (b * x - a * y)) * e == d * (b * x * e) - d * (a * y * e)) by (nonlinear_arith);
    assert((d * (a * e - b * c)) * y == d * (a * e * y) - d * (b * c * y)) by (nonlinear_arith);
    assert(c * y * b == b * c * y) by (nonlinear_arith);
    assert(e * x * b == b * x * e) by (nonlinear_arith);
    assert(a * y * e == a * e * y) by (nonlinear_arith);
}

/// The reciprocal of plus or minus one, rounded toward zero, is itself.
pub proof fn lemma_reciprocal_of_unit(det: int)
    requires
        det == 1 || det == -1,
    ensures
        trunc_div(1, det) == det,
{
    assert(1int / 1int == 1) by (nonlinear_arith);
    assert(1int / -1int == -1) by (nonlinear_arith);
}

/// A 2D matrix whose determinant is one or minus one is undone exactly, on
/// both sides, by its adjugate scaled by the reciprocal of the determinant:
/// the inverse that a transform built from it caches.
pub proof fn lemma_unimodular_inverse2(m: Mat3x2)
    requires
        m.det() == 1 || m.det() == -1,
    ensures
        m.mul(m.adjugate().scale(trunc_div(1, m.det()))) == Mat3x2::identity(),
        m.adjugate().scale(trunc_div(1, m.det())).mul(m) == Mat3x2::identity(),
{
    let d = trunc_div(1, m.det());
    lemma_reciprocal_of_unit(m.det());
    let inv = m.adjugate().scale(d);
    let det = m.m11 * m.m22 - m.m12 * m.m21;
    lemma_mul_congruent(d, det, d);
    assert(d * d == 1) by (nonlinear_arith)
        requires
            d == 1 || d == -1,
    ;
    lemma_scaled_cross(m.m11, m.m22, m.m12, m.m21, d);
    lemma_scaled_zero(m.m11, m.m12, d);
    lemma_scaled_zero(m.m21, m.m22, d);
    lemma_scaled_cross(m.m21, m.m11, m.m22, m.m12, d);
    lemma_scaled_cancel(m.m31, m.m22, m.m32, m.m21, d);
    lemma_scaled_cancel(m.m31, m.m12, m.m32, m.m11, d);
    let p = m.mul(inv);
    assert(p.m11 == 1);
    assert(p.m12 == 0);
    assert(p.m21 == 0);
    assert(p.m22 == 1);
    assert(p.m31 == 0);
    assert(p.m32 == 0);
    lemma_scaled_zero(m.m22, m.m12, d);
    lemma_scaled_zero(m.m21, m.m11, d);
    lemma_scaled_cross_left(m.m11, m.m22, m.m21, m.m12, d);
    lemma_scaled_cross_left(m.m12, m.m21, m.m22, m.m11, d);
    lemma_offset_row(m.m11, m.m12, m.m21, m.m22, m.m31, m.m32, d);
    let q = inv.mul(m);
    assert(q.m11 == 1);
    assert(q.m12 == 0);
    assert(q.m21 == 0);
    assert(q.m22 == 1);
    assert(q.m31 == 0);
    assert(q.m32 == 0);
}

/// Multiplication distributes over a sum of four terms, and over a sum of three.
proof fn lemma_distribute4(x1: int, x2: int, x3: int, x4: int, n: int)
    by (nonlinear_arith)
    ensures
        (x1 + x2 + x3 + x4) * n == x1 * n + x2 * n + x3 * n + x4 * n,
        n * (x1 + x2 + x3) == n * x1 + n * x2 + n * x3,
{
}

/// Multiplication is associative.
pub(crate) proof fn lemma_associate(p: int, m: int, n: int)
    by (nonlinear_arith)
    ensures
        (p * m) * n == p * (m * n),
{
}

/// One coordinate of a point taken through two affine maps in turn is the
/// same coordinate of the point taken through their product: the row vector
/// `(x, y, z, 1)` times three columns `a`, `b`, `c` of the first matrix, times
/// a column `n` of the second, regrouped.
proof fn lemma_row_regrouped(
    x: int,
    y: int,
    z: int,
    a1: int,
    a2: int,
    a3: int,
    a4: int,
    b1: int,
    b2: int,
    b3: int,
    b4: int,
    c1: int,
    c2: int,
    c3: int,
    c4: int,
    n1: int,
    n2: int,
    n3: int,
)
    ensures
        (x * a1 + y * a2 + z * a3 + a4) * n1 + (x * b1 + y * b2 + z * b3 + b4) * n2 + (x * c1 + y
            * c2 + z * c3 + c4) * n3 == x * (a1 * n1 + b1 * n2 + c1 * n3) + y * (a2 * n1 + b2 * n2
            + c2 * n3) + z * (a3 * n1 + b3 * n2 + c3 * n3) + (a4 * n1 + b4 * n2 + c4 * n3),
{
    lemma_distribute4(x * a1, y * a2, z * a3, a4, n1);
    lemma_distribute4(x * b1, y * b2, z * b3, b4, n2);
    lemma_distribute4(x * c1, y * c2, z * c3, c4, n3);
    lemma_associate(x, a1, n1);
    lemma_associate(y, a2, n1);
    lemma_associate(z, a3, n1);
    lemma_associate(x, b1, n2);
    lemma_associate(y, b2, n2);
    lemma_associate(z, b3, n2);
    lemma_associate(x, c1, n3);
    lemma_associate(y, c2, n3);
    lemma_associate(z, c3, n3);
    lemma_distribute4(a1 * n1, b1 * n2, c1 * n3, 0, x);
    lemma_distribute4(a2 * n1, b2 * n2, c2 * n3, 0, y);
    lemma_distribute4(a3 * n1, b3 * n2, c3 * n3, 0, z);
}

/// When an affine matrix is undone on the left by `n`, then `n` is affine too.
pub proof fn lemma_inverse_of_affine_is_affine(m: Mat4, n: Mat4)
    requires
        m.is_affine(),
        n.mul(m) == Mat4::identity(),
    ensures
        n.is_affine(),
{
    let i = n.mul(m);
    lemma_mul_congruent(n.m11, m.m14, 0);
    lemma_mul_congruent(n.m12, m.m24, 0);
    lemma_mul_congruent(n.m13, m.m34, 0);
    lemma_mul_congruent(n.m14, m.m44, 1);
    assert(i.m14 == n.m11 * m.m14 + n.m12 * m.m24 + n.m13 * m.m34 + n.m14 * m.m44);
    assert(i.m14 == n.m14);
    lemma_mul_congruent(n.m21, m.m14, 0);
    lemma_mul_congruent(n.m22, m.m24, 0);
    lemma_mul_congruent(n.m23, m.m34, 0);
    lemma_mul_congruent(n.m24, m.m44, 1);
    assert(i.m24 == n.m21 * m.m14 + n.m22 * m.m24 + n.m23 * m.m34 + n.m24 * m.m44);
    assert(i.m24 == n.m24);
    lemma_mul_congruent(n.m31, m.m14, 0);
    lemma_mul_congruent(n.m32, m.m24, 0);
    lemma_mul_congruent(n.m33, m.m34, 0);
    lemma_mul_congruent(n.m34, m.m44, 1);
    assert(i.m34 == n.m31 * m.m14 + n.m32 * m.m24 + n.m33 * m.m34 + n.m34 * m.m44);
    assert(i.m34 == n.m34);
    lemma_mul_congruent(n.m41, m.m14, 0);
    lemma_mul_congruent(n.m42, m.m24, 0);
    lemma_mul_congruent(n.m43, m.m34, 0);
    lemma_mul_congruent(n.m44, m.m44, 1);
    assert(i.m44 == n.m41 * m.m14 + n.m42 * m.m24 + n.m43 * m.m34 + n.m44 * m.m44);
    assert(i.m44 == n.m44);
}

/// Round trip: an affine transform whose cached inverse is exact takes a
/// point to a point from which the inverse transform recovers the original.
pub proof fn lemma_round_trip3<T: Scalar, Src, Dst>(t: Transform3<T, Src, Dst>, p: Point3<T, Src>)
    requires
        t.is_exact(),
        t.matrix().is_affine(),
    ensures
        t.inverse_matrix().is_affine(),
        t.matrix().apply_point(p@).w == 1,
        to_point3_spec(
            t@.inverse().mat.apply_point(to_point3_spec(t.matrix().apply_point(p@))),
        ) == p@,
{
    let m = t.matrix();
    let n = t.inverse_matrix();
    let p = p@;
    lemma_inverse_of_affine_is_affine(m, n);
    let h = m.apply_point(p);
    assert(h.w == 1);
    lemma_quotient_by_positive(h.x, 1);
    lemma_quotient_by_positive(h.y, 1);
    lemma_quotient_by_positive(h.z, 1);
    let q = to_point3_spec(h);
    assert(q == Vec3 { x: h.x, y: h.y, z: h.z });
    let g = n.apply_point(q);
    assert(g.w == 1);
    let i = m.mul(n);
    assert(i.m11 == m.m11 * n.m11 + m.m12 * n.m21 + m.m13 * n.m31 + m.m14 * n.m41);
    assert(i.m21 == m.m21 * n.m11 + m.m22 * n.m21 + m.m23 * n.m31 + m.m24 * n.m41);
    assert(i.m31 == m.m31 * n.m11 + m.m32 * n.m21 + m.m33 * n.m31 + m.m34 * n.m41);
    assert(i.m41 == m.m41 * n.m11 + m.m42 * n.m21 + m.m43 * n.m31 + m.m44 * n.m41);
    assert(i.m12 == m.m11 * n.m12 + m.m12 * n.m22 + m.m13 * n.m32 + m.m14 * n.m42);
    assert(i.m22 == m.m21 * n.m12 + m.m22 * n.m22 + m.m23 * n.m32 + m.m24 * n.m42);
    assert(i.m32 == m.m31 * n.m12 + m.m32 * n.m22 + m.m33 * n.m32 + m.m34 * n.m42);
    assert(i.m42 == m.m41 * n.m12 + m.m42 * n.m22 + m.m43 * n.m32 + m.m44 * n.m42);
    assert(i.m13 == m.m11 * n.m13 + m.m12 * n.m23 + m.m13 * n.m33 + m.m14 * n.m43);
    assert(i.m23 == m.m21 * n.m13 + m.m22 * n.m23 + m.m23 * n.m33 + m.m24 * n.m43);
    assert(i.m33 == m.m31 * n.m13 + m.m32 * n.m23 + m.m33 * n.m33 + m.m34 * n.m43);
    assert(i.m43 == m.m41 * n.m13 + m.m42 * n.m23 + m.m43 * n.m33 + m.m44 * n.m43);
    lemma_row_regrouped(
        p.x, p.y, p.z,
        m.m11, m.m21, m.m31, m.m41,
        m.m12, m.m22, m.m32, m.m42,
        m.m13, m.m23, m.m33, m.m43,
        n.m11, n.m21, n.m31,
    );
    lemma_mul_congruent(n.m11, h.x, p.x * m.m11 + p.y * m.m21 + p.z * m.m31 + m.m41);
    lemma_mul_congruent(n.m21, h.y, p.x * m.m12 + p.y * m.m22 + p.z * m.m32 + m.m42);
    lemma_mul_congruent(n.m31, h.z, p.x * m.m13 + p.y * m.m23 + p.z * m.m33 + m.m43);
    lemma_row_regrouped(
        p.x, p.y, p.z,
        m.m11, m.m21, m.m31, m.m41,
        m.m12, m.m22, m.m32, m.m42,
        m.m13, m.m23, m.m33, m.m43,
        n.m12, n.m22, n.m32,
    );
    lemma_mul_congruent(n.m12, h.x, p.x * m.m11 + p.y * m.m21 + p.z * m.m31 + m.m41);
    lemma_mul_congruent(n.m22, h.y, p.x * m.m12 + p.y * m.m22 + p.z * m.m32 + m.m42);
    lemma_mul_congruent(n.m32, h.z, p.x * m.m13 + p.y * m.m23 + p.z * m.m33 + m.m43);
    lemma_row_regrouped(
        p.x, p.y, p.z,
        m.m11, m.m21, m.m31, m.m41,
        m.m12, m.m22, m.m32, m.m42,
        m.m13, m.m23, m.m33, m.m43,
        n.m13, n.m23, n.m33,
    );
    lemma_mul_congruent(n.m13, h.x, p.x * m.m11 + p.y * m.m21 + p.z * m.m31 + m.m41);
    lemma_mul_congruent(n.m23, h.y, p.x * m.m12 + p.y * m.m22 + p.z * m.m32 + m.m42);
    lemma_mul_congruent(n.m33, h.z, p.x * m.m13 + p.y * m.m23 + p.z * m.m33 + m.m43);
    lemma_mul_congruent(p.x, m.m11 * n.m11 + m.m12 * n.m21 + m.m13 * n.m31, 1);
    lemma_mul_congruent(p.y, m.m21 * n.m11 + m.m22 * n.m21 + m.m23 * n.m31, 0);
    lemma_mul_congruent(p.z, m.m31 * n.m11 + m.m32 * n.m21 + m.m33 * n.m31, 0);
    lemma_mul_congruent(p.x, m.m11 * n.m12 + m.m12 * n.m22 + m.m13 * n.m32, 0);
    lemma_mul_congruent(p.y, m.m21 * n.m12 + m.m22 * n.m22 + m.m23 * n.m32, 1);
    lemma_mul_congruent(p.z, m.m31 * n.m12 + m.m32 * n.m22 + m.m33 * n.m32, 0);
    lemma_mul_congruent(p.x, m.m11 * n.m13 + m.m12 * n.m23 + m.m13 * n.m33, 0);
    lemma_mul_congruent(p.y, m.m21 * n.m13 + m.m22 * n.m23 + m.m23 * n.m33, 0);
    lemma_mul_congruent(p.z, m.m31 * n.m13 + m.m32 * n.m23 + m.m33 * n.m33, 1);
    lemma_mul_congruent(n.m41, m.m14, 0);
    lemma_mul_congruent(n.m41, m.m24, 0);
    lemma_mul_congruent(n.m41, m.m34, 0);
    lemma_mul_congruent(n.m41, m.m44, 1);
    lemma_mul_congruent(n.m42, m.m14, 0);
    lemma_mul_congruent(n.m42, m.m24, 0);
    lemma_mul_congruent(n.m42, m.m34, 0);
    lemma_mul_congruent(n.m42, m.m44, 1);
    lemma_mul_congruent(n.m43, m.m14, 0);
    lemma_mul_congruent(n.m43, m.m24, 0);
    lemma_mul_congruent(n.m43, m.m34, 0);
    lemma_mul_congruent(n.m43, m.m44, 1);
    assert(g.x == h.x * n.m11 + h.y * n.m21 + h.z * n.m31 + n.m41);
    assert(g.x == p.x);
    assert(g.y == h.x * n.m12 + h.y * n.m22 + h.z * n.m32 + n.m42);
    assert(g.y == p.y);
    assert(g.z == h.x * n.m13 + h.y * n.m23 + h.z * n.m33 + n.m43);
    assert(g.z == p.z);
}

/// The square of a difference `t1 - t2 - t3 - t4`, written out.
proof fn lemma_square_of_real_part(t1: int, t2: int, t3: int, t4: int)
    by (nonlinear_arith)
    ensures
        (t1 - t2 - t3 - t4) * (t1 - t2 - t3 - t4) == t1 * t1 + t2 * t2 + t3 * t3 + t4 * t4 - 2 * (
        t1 * t2) - 2 * (t1 * t3) - 2 * (t1 * t4) + 2 * (t2 * t3) + 2 * (t2 * t4) + 2 * (t3 * t4),
{
}

/// The square of a sum `t1 + t2 + t3 - t4`, written out.
proof fn lemma_square_of_imaginary_part(t1: int, t2: int, t3: int, t4: int)
    by (nonlinear_arith)
    ensures
        (t1 + t2 + t3 - t4) * (t1 + t2 + t3 - t4) == t1 * t1 + t2 * t2 + t3 * t3 + t4 * t4 + 2 * (
        t1 * t2) + 2 * (t1 * t3) - 2 * (t1 * t4) + 2 * (t2 * t3) - 2 * (t2 * t4) - 2 * (t3 * t4),
{
}

/// A product of two products regrouped by the origin of its factors, in
/// either order within each group.
pub(crate) proof fn lemma_pair_product(u: int, v: int, x: int, y: int)
    by (nonlinear_arith)
    ensures
        (u * v) * (x * y) == (u * x) * (v * y),
        (u * x) * (v * y) == (x * u) * (v * y),
        (u * x) * (v * y) == (u * x) * (y * v),
        (u * x) * (v * y) == (x * u) * (y * v),
{
}

/// Multiplication distributes over a sum of four terms on the right.
proof fn lemma_distribute4_right(n: int, y1: int, y2: int, y3: int, y4: int)
    by (nonlinear_arith)
    ensures
        n * (y1 + y2 + y3 + y4) == n * y1 + n * y2 + n * y3 + n * y4,
{
}

/// The product of two sums of four terms, written out.
pub(crate) proof fn lemma_distribute4x4(
    x1: int,
    x2: int,
    x3: int,
    x4: int,
    y1: int,
    y2: int,
    y3: int,
    y4: int,
)
    ensures
        (x1 + x2 + x3 + x4) * (y1 + y2 + y3 + y4) == x1 * y1 + x1 * y2 + x1 * y3 + x1 * y4 + x2
            * y1 + x2 * y2 + x2 * y3 + x2 * y4 + x3 * y1 + x3 * y2 + x3 * y3 + x3 * y4 + x4 * y1
            + x4 * y2 + x4 * y3 + x4 * y4,
{
    lemma_distribute4(x1, x2, x3, x4, y1 + y2 + y3 + y4);
    lemma_distribute4_right(x1, y1, y2, y3, y4);
    lemma_distribute4_right(x2, y1, y2, y3, y4);
    lemma_distribute4_right(x3, y1, y2, y3, y4);
    lemma_distribute4_right(x4, y1, y2, y3, y4);
}

/// The norm is multiplicative: the squared norm of a product of quaternions
/// is the product of their squared norms.
pub proof fn lemma_norm_multiplicative(q: Quat, r: Quat)
    ensures
        q.mul(r).norm_squared() == q.norm_squared() * r.norm_squared(),
{
    lemma_distribute4x4(
        q.a * q.a,
        q.i * q.i,
        q.j * q.j,
        q.k * q.k,
        r.a * r.a,
        r.i * r.i,
        r.j * r.j,
        r.k * r.k,
    );
    lemma_square_of_real_part(q.a * r.a, q.i * r.i, q.j * r.j, q.k * r.k);
    lemma_pair_product(q.a, r.a, q.a, r.a);
    lemma_pair_product(q.a, r.a, q.i, r.i);
    lemma_pair_product(q.a, r.a, q.j, r.j);
    lemma_pair_product(q.a, r.a, q.k, r.k);
    lemma_pair_product(q.i, r.i, q.i, r.i);
    lemma_pair_product(q.i, r.i, q.j, r.j);
    lemma_pair_product(q.i, r.i, q.k, r.k);
    lemma_pair_product(q.j, r.j, q.j, r.j);
    lemma_pair_product(q.j, r.j, q.k, r.k);
    lemma_pair_product(q.k, r.k, q.k, r.k);
    lemma_square_of_imaginary_part(q.i * r.a, q.a * r.i, q.j * r.k, q.k * r.j);
    lemma_pair_product(q.i, r.a, q.i, r.a);
    lemma_pair_product(q.i, r.a, q.a, r.i);
    lemma_pair_product(q.i, r.a, q.j, r.k);
    lemma_pair_product(q.i, r.a, q.k, r.j);
    lemma_pair_product(q.a, r.i, q.a, r.i);
    lemma_pair_product(q.a, r.i, q.j, r.k);
    lemma_pair_product(q.a, r.i, q.k, r.j);
    lemma_pair_product(q.j, r.k, q.j, r.k);
    lemma_pair_product(q.j, r.k, q.k, r.j);
    lemma_pair_product(q.k, r.j, q.k, r.j);
    lemma_square_of_imaginary_part(q.j * r.a, q.a * r.j, q.k * r.i, q.i * r.k);
    lemma_pair_product(q.j, r.a, q.j, r.a);
    lemma_pair_product(q.j, r.a, q.a, r.j);
    lemma_pair_product(q.j, r.a, q.k, r.i);
    lemma_pair_product(q.j, r.a, q.i, r.k);
    lemma_pair_product(q.a, r.j, q.a, r.j);
    lemma_pair_product(q.a, r.j, q.k, r.i);
    lemma_pair_product(q.a, r.j, q.i, r.k);
    lemma_pair_product(q.k, r.i, q.k, r.i);
    lemma_pair_product(q.k, r.i, q.i, r.k);
    lemma_pair_product(q.i, r.k, q.i, r.k);
    lemma_square_of_imaginary_part(q.k * r.a, q.a * r.k, q.i * r.j, q.j * r.i);
    lemma_pair_product(q.k, r.a, q.k, r.a);
    lemma_pair_product(q.k, r.a, q.a, r.k);
    lemma_pair_product(q.k, r.a, q.i, r.j);
    lemma_pair_product(q.k, r.a, q.j, r.i);
    lemma_pair_product(q.a, r.k, q.a, r.k);
    lemma_pair_product(q.a, r.k, q.i, r.j);
    lemma_pair_product(q.a, r.k, q.j, r.i);
    lemma_pair_product(q.i, r.j, q.i, r.j);
    lemma_pair_product(q.i, r.j, q.j, r.i);
    lemma_pair_product(q.j, r.i, q.j, r.i);
}

/// Composing two rotations gives a rotation: the product of two unit
/// quaternions is a unit quaternion.
pub proof fn lemma_then_keeps_unit_norm<T: Scalar, A, B, C>(
    first: Rotation3<T, A, B>,
    second: Rotation3<T, B, C>,
)
    requires
        first@.is_unit(),
        second@.is_unit(),
    ensures
        second@.mul(first@).is_unit(),
{
    lemma_norm_multiplicative(second@, first@);
}

/// The conjugate of a unit quaternion is a unit quaternion, and the identity
/// is one.
pub proof fn lemma_conjugate_keeps_unit_norm(q: Quat)
    ensures
        q.conjugate().norm_squared() == q.norm_squared(),
        Quat::identity().is_unit(),
{
    assert((-q.i) * (-q.i) == q.i * q.i) by (nonlinear_arith);
    assert((-q.j) * (-q.j) == q.j * q.j) by (nonlinear_arith);
    assert((-q.k) * (-q.k) == q.k * q.k) by (nonlinear_arith);
}

/// A 2D rotation built from a sine and a cosine whose squares sum to one is
/// undone exactly by the rotation it caches for the way back.
pub proof fn lemma_rotation2_exact(s: int, c: int)
    requires
        c * c + s * s == 1,
    ensures
        (Transform2Model { mat: Mat3x2::rotation(c, s), inv: Mat3x2::rotation(c, -s) }).is_exact(),
{
    assert(c * (-s) == -(c * s)) by (nonlinear_arith);
    assert(s * c == c * s) by (nonlinear_arith);
    assert((-s) * c == -(c * s)) by (nonlinear_arith);
    assert((-s) * (-s) == s * s) by (nonlinear_arith);
    assert((-(-s)) * c == c * s) by (nonlinear_arith);
    assert((-(-s)) * (-s) == -(s * s)) by (nonlinear_arith);
    assert(c * (-(-s)) == c * s) by (nonlinear_arith);
    assert((-s) * (-(-s)) == -(s * s)) by (nonlinear_arith);
    let m = Mat3x2::rotation(c, s);
    let n = Mat3x2::rotation(c, -s);
    assert(m.mul(n) == Mat3x2::identity());
    assert(n.mul(m) == Mat3x2::identity());
}

/// A dot product with one side scaled by `d` is `d` times the dot product,
/// whichever side carries the scale.
proof fn lemma_dot_scaled(
    d: int,
    x1: int,
    y1: int,
    x2: int,
    y2: int,
    x3: int,
    y3: int,
    x4: int,
    y4: int,
)
    ensures
        x1 * (d * y1) + x2 * (d * y2) + x3 * (d * y3) + x4 * (d * y4) == d * (x1 * y1 + x2 * y2
            + x3 * y3 + x4 * y4),
        (d * x1) * y1 + (d * x2) * y2 + (d * x3) * y3 + (d * x4) * y4 == d * (x1 * y1 + x2 * y2
            + x3 * y3 + x4 * y4),
{
    lemma_scale_moves(d, x1, y1);
    lemma_scale_moves(d, x2, y2);
    lemma_scale_moves(d, x3, y3);
    lemma_scale_moves(d, x4, y4);
    lemma_distribute4_right(d, x1 * y1, x2 * y2, x3 * y3, x4 * y4);
}

/// A scale on either factor of a product can be moved in front of it.
proof fn lemma_scale_moves(d: int, x: int, y: int)
    by (nonlinear_arith)
    ensures
        x * (d * y) == d * (x * y),
        (d * x) * y == d * (x * y),
{
}

/// Scaling one factor of a matrix product scales the product.
pub proof fn lemma_product_with_scaled(m: Mat4, n: Mat4, d: int)
    ensures
        m.mul(n.scale(d)) == m.mul(n).scale(d),
        n.scale(d).mul(m) == n.mul(m).scale(d),
{
    lemma_dot_scaled(d, m.m11, n.m11, m.m12, n.m21, m.m13, n.m31, m.m14, n.m41);
    lemma_dot_scaled(d, m.m11, n.m12, m.m12, n.m22, m.m13, n.m32, m.m14, n.m42);
    lemma_dot_scaled(d, m.m11, n.m13, m.m12, n.m23, m.m13, n.m33, m.m14, n.m43);
    lemma_dot_scaled(d, m.m11, n.m14, m.m12, n.m24, m.m13, n.m34, m.m14, n.m44);
    lemma_dot_scaled(d, m.m21, n.m11, m.m22, n.m21, m.m23, n.m31, m.m24, n.m41);
    lemma_dot_scaled(d, m.m21, n.m12, m.m22, n.m22, m.m23, n.m32, m.m24, n.m42);
    lemma_dot_scaled(d, m.m21, n.m13, m.m22, n.m23, m.m23, n.m33, m.m24, n.m43);
    lemma_dot_scaled(d, m.m21, n.m14, m.m22, n.m24, m.m23, n.m34, m.m24, n.m44);
    lemma_dot_scaled(d, m.m31, n.m11, m.m32, n.m21, m.m33, n.m31, m.m34, n.m41);
    lemma_dot_scaled(d, m.m31, n.m12, m.m32, n.m22, m.m33, n.m32, m.m34, n.m42);
    lemma_dot_scaled(d, m.m31, n.m13, m.m32, n.m23, m.m33, n.m33, m.m34, n.m43);
    lemma_dot_scaled(d, m.m31, n.m14, m.m32, n.m24, m.m33, n.m34, m.m34, n.m44);
    lemma_dot_scaled(d, m.m41, n.m11, m.m42, n.m21, m.m43, n.m31, m.m44, n.m41);
    lemma_dot_scaled(d, m.m41, n.m12, m.m42, n.m22, m.m43, n.m32, m.m44, n.m42);
    lemma_dot_scaled(d, m.m41, n.m13, m.m42, n.m23, m.m43, n.m33, m.m44, n.m43);
    lemma_dot_scaled(d, m.m41, n.m14, m.m42, n.m24, m.m43, n.m34, m.m44, n.m44);
    assert(m.mul(n.scale(d)) == m.mul(n).scale(d));
    lemma_dot_scaled(d, n.m11, m.m11, n.m12, m.m21, n.m13, m.m31, n.m14, m.m41);
    lemma_dot_scaled(d, n.m11, m.m12, n.m12, m.m22, n.m13, m.m32, n.m14, m.m42);
    lemma_dot_scaled(d, n.m11, m.m13, n.m12, m.m23, n.m13, m.m33, n.m14, m.m43);
    lemma_dot_scaled(d, n.m11, m.m14, n.m12, m.m24, n.m13, m.m34, n.m14, m.m44);
    lemma_dot_scaled(d, n.m21, m.m11, n.m22, m.m21, n.m23, m.m31, n.m24, m.m41);
    lemma_dot_scaled(d, n.m21, m.m12, n.m22, m.m22, n.m23, m.m32, n.m24, m.m42);
    lemma_dot_scaled(d, n.m21, m.m13, n.m22, m.m23, n.m23, m.m33, n.m24, m.m43);
    lemma_dot_scaled(d, n.m21, m.m14, n.m22, m.m24, n.m23, m.m34, n.m24, m.m44);
    lemma_dot_scaled(d, n.m31, m.m11, n.m32, m.m21, n.m33, m.m31, n.m34, m.m41);
    lemma_dot_scaled(d, n.m31, m.m12, n.m32, m.m22, n.m33, m.m32, n.m34, m.m42);
    lemma_dot_scaled(d, n.m31, m.m13, n.m32, m.m23, n.m33, m.m33, n.m34, m.m43);
    lemma_dot_scaled(d, n.m31, m.m14, n.m32, m.m24, n.m33, m.m34, n.m34, m.m44);
    lemma_dot_scaled(d, n.m41, m.m11, n.m42, m.m21, n.m43, m.m31, n.m44, m.m41);
    lemma_dot_scaled(d, n.m41, m.m12, n.m42, m.m22, n.m43, m.m32, n.m44, m.m42);
    lemma_dot_scaled(d, n.m41, m.m13, n.m42, m.m23, n.m43, m.m33, n.m44, m.m43);
    lemma_dot_scaled(d, n.m41, m.m14, n.m42, m.m24, n.m43, m.m34, n.m44, m.m44);
}

/// A 4x4 matrix whose determinant is one or minus one is undone exactly, on
/// both sides, by its adjugate scaled by the reciprocal of the determinant:
/// the inverse that a transform built from it caches.
pub proof fn lemma_unimodular_inverse3(m: Mat4)
    requires
        m.det() == 1 || m.det() == -1,
    ensures
        m.mul(m.adjugate().scale(trunc_div(1, m.det()))) == Mat4::identity(),
        m.adjugate().scale(trunc_div(1, m.det())).mul(m) == Mat4::identity(),
{
    let d = trunc_div(1, m.det());
    lemma_reciprocal_of_unit(m.det());
    lemma_adjugate_inverts(m);
    lemma_product_with_scaled(m, m.adjugate(), d);
    let s = Mat4::identity().scale(m.det()).scale(d);
    assert(d * (m.det() * 1) == 1) by (nonlinear_arith)
        requires
            d == m.det(),
            d == 1 || d == -1,
    ;
    assert(d * (m.det() * 0) == 0) by (nonlinear_arith);
    assert(s == Mat4::identity());
}

/// A transform whose matrix has determinant one or minus one, and whose cached
/// inverse is the scaled adjugate that construction computes, is exact.
pub proof fn lemma_unimodular_transform_exact3<T: Scalar, Src, Dst>(t: Transform3<T, Src, Dst>)
    requires
        t.matrix().det() == 1 || t.matrix().det() == -1,
        t.inverse_matrix() == t.matrix().adjugate().scale(trunc_div(1, t.matrix().det())),
    ensures
        t.is_exact(),
{
    lemma_unimodular_inverse3(t.matrix());
}

/// A transform whose matrix has determinant one or minus one, and whose cached
/// inverse is the scaled adjugate that construction computes, is exact.
pub proof fn lemma_unimodular_transform_exact2<T: Scalar, Src, Dst>(t: Transform2<T, Src, Dst>)
    requires
        t.matrix().det() == 1 || t.matrix().det() == -1,
        t.inverse_matrix() == t.matrix().adjugate().scale(trunc_div(1, t.matrix().det())),
    ensures
        t.is_exact(),
{
    lemma_unimodular_inverse2(t.matrix());
}

/// One entry of a product of three matrices, grouped either way: row `x` of
/// the first, the whole second matrix `y`, column `z` of the third.
proof fn lemma_entry_regrouped(
    x1: int,
    x2: int,
    x3: int,
    x4: int,
    y11: int,
    y12: int,
    y13: int,
    y14: int,
    y21: int,
    y22: int,
    y23: int,
    y24: int,
    y31: int,
    y32: int,
    y33: int,
    y34: int,
    y41: int,
    y42: int,
    y43: int,
    y44: int,
    z1: int,
    z2: int,
    z3: int,
    z4: int,
)
    ensures
        (x1 * y11 + x2 * y21 + x3 * y31 + x4 * y41) * z1
            + (x1 * y12 + x2 * y22 + x3 * y32 + x4 * y42) * z2
            + (x1 * y13 + x2 * y23 + x3 * y33 + x4 * y43) * z3
            + (x1 * y14 + x2 * y24 + x3 * y34 + x4 * y44) * z4
            == x1 * (y11 * z1 + y12 * z2 + y13 * z3 + y14 * z4)
                + x2 * (y21 * z1 + y22 * z2 + y23 * z3 + y24 * z4)
                + x3 * (y31 * z1 + y32 * z2 + y33 * z3 + y34 * z4)
                + x4 * (y41 * z1 + y42 * z2 + y43 * z3 + y44 * z4),
{
    lemma_distribute4(x1 * y11, x2 * y21, x3 * y31, x4 * y41, z1);
    lemma_associate(x1, y11, z1);
    lemma_associate(x2, y21, z1);
    lemma_associate(x3, y31, z1);
    lemma_associate(x4, y41, z1);
    lemma_distribute4(x1 * y12, x2 * y22, x3 * y32, x4 * y42, z2);
    lemma_associate(x1, y12, z2);
    lemma_associate(x2, y22, z2);
    lemma_associate(x3, y32, z2);
    lemma_associate(x4, y42, z2);
    lemma_distribute4(x1 * y13, x2 * y23, x3 * y33, x4 * y43, z3);
    lemma_associate(x1, y13, z3);
    lemma_associate(x2, y23, z3);
    lemma_associate(x3, y33, z3);
    lemma_associate(x4, y43, z3);
    lemma_distribute4(x1 * y14, x2 * y24, x3 * y34, x4 * y44, z4);
    lemma_associate(x1, y14, z4);
    lemma_associate(x2, y24, z4);
    lemma_associate(x3, y34, z4);
    lemma_associate(x4, y44, z4);
    lemma_distribute4_right(x1, y11 * z1, y12 * z2, y13 * z3, y14 * z4);
    lemma_distribute4_right(x2, y21 * z1, y22 * z2, y23 * z3, y24 * z4);
    lemma_distribute4_right(x3, y31 * z1, y32 * z2, y33 * z3, y34 * z4);
    lemma_distribute4_right(x4, y41 * z1, y42 * z2, y43 * z3, y44 * z4);
}

/// Matrix multiplication is associative.
pub proof fn lemma_mul_associative(x: Mat4, y: Mat4, z: Mat4)
    ensures
        x.mul(y).mul(z) == x.mul(y.mul(z)),
{
    lemma_entry_regrouped(
        x.m11, x.m12, x.m13, x.m14,
        y.m11, y.m12, y.m13, y.m14, y.m21, y.m22, y.m23, y.m24, y.m31, y.m32, y.m33, y.m34, y.m41,
            y.m42, y.m43, y.m44,
        z.m11, z.m21, z.m31, z.m41,
    );
    lemma_entry_regrouped(
        x.m11, x.m12, x.m13, x.m14,
        y.m11, y.m12, y.m13, y.m14, y.m21, y.m22, y.m23, y.m24, y.m31, y.m32, y.m33, y.m34, y.m41,
            y.m42, y.m43, y.m44,
        z.m12, z.m22, z.m32, z.m42,
    );
    lemma_entry_regrouped(
        x.m11, x.m12, x.m13, x.m14,
        y.m11, y.m12, y.m13, y.m14, y.m21, y.m22, y.m23, y.m24, y.m31, y.m32, y.m33, y.m34, y.m41,
            y.m42, y.m43, y.m44,
        z.m13, z.m23, z.m33, z.m43,
    );
    lemma_entry_regrouped(
        x.m11, x.m12, x.m13, x.m14,
        y.m11, y.m12, y.m13, y.m14, y.m21, y.m22, y.m23, y.m24, y.m31, y.m32, y.m33, y.m34, y.m41,
            y.m42, y.m43, y.m44,
        z.m14, z.m24, z.m34, z.m44,
    );
    lemma_entry_regrouped(
        x.m21, x.m22, x.m23, x.m24,
        y.m11, y.m12, y.m13, y.m14, y.m21, y.m22, y.m23, y.m24, y.m31, y.m32, y.m33, y.m34, y.m41,
            y.m42, y.m43, y.m44,
        z.m11, z.m21, z.m31, z.m41,
    );
    lemma_entry_regrouped(
        x.m21, x.m22, x.m23, x.m24,
        y.m11, y.m12, y.m13, y.m14, y.m21, y.m22, y.m23, y.m24, y.m31, y.m32, y.m33, y.m34, y.m41,
            y.m42, y.m43, y.m44,
        z.m12, z.m22, z.m32, z.m42,
    );
    lemma_entry_regrouped(
        x.m21, x.m22, x.m23, x.m24,
        y.m11, y.m12, y.m13, y.m14, y.m21, y.m22, y.m23, y.m24, y.m31, y.m32, y.m33, y.m34, y.m41,
            y.m42, y.m43, y.m44,
        z.m13, z.m23, z.m33, z.m43,
    );
    lemma_entry_regrouped(
        x.m21, x.m22, x.m23, x.m24,
        y.m11, y.m12, y.m13, y.m14, y.m21, y.m22, y.m23, y.m24, y.m31, y.m32, y.m33, y.m34, y.m41,
            y.m42, y.m43, y.m44,
        z.m14, z.m24, z.m34, z.m44,
    );
    lemma_entry_regrouped(
        x.m31, x.m32, x.m33, x.m34,
        y.m11, y.m12, y.m13, y.m14, y.m21, y.m22, y.m23, y.m24, y.m31, y.m32, y.m33, y.m34, y.m41,
            y.m42, y.m43, y.m44,
        z.m11, z.m21, z.m31, z.m41,
    );
    lemma_entry_regrouped(
        x.m31, x.m32, x.m33, x.m34,
        y.m11, y.m12, y.m13, y.m14, y.m21, y.m22, y.m23, y.m24, y.m31, y.m32, y.m33, y.m34, y.m41,
            y.m42, y.m43, y.m44,
        z.m12, z.m22, z.m32, z.m42,
    );
    lemma_entry_regrouped(
        x.m31, x.m32, x.m33, x.m34,
        y.m11, y.m12, y.m13, y.m14, y.m21, y.m22, y.m23, y.m24, y.m31, y.m32, y.m33, y.m34, y.m41,
            y.m42, y.m43, y.m44,
        z.m13, z.m23, z.m33, z.m43,
    );
    lemma_entry_regrouped(
        x.m31, x.m32, x.m33, x.m34,
        y.m11, y.m12, y.m13, y.m14, y.m21, y.m22, y.m23, y.m24, y.m31, y.m32, y.m33, y.m34, y.m41,
            y.m42, y.m43, y.m44,
        z.m14, z.m24, z.m34, z.m44,
    );
    lemma_entry_regrouped(
        x.m41, x.m42, x.m43, x.m44,
        y.m11, y.m12, y.m13, y.m14, y.m21, y.m22, y.m23, y.m24, y.m31, y.m32, y.m33, y.m34, y.m41,
            y.m42, y.m43, y.m44,
        z.m11, z.m21, z.m31, z.m41,
    );
    lemma_entry_regrouped(
        x.m41, x.m42, x.m43, x.m44,
        y.m11, y.m12, y.m13, y.m14, y.m21, y.m22, y.m23, y.m24, y.m31, y.m32, y.m33, y.m34, y.m41,
            y.m42, y.m43, y.m44,
        z.m12, z.m22, z.m32, z.m42,
    );
    lemma_entry_regrouped(
        x.m41, x.m42, x.m43, x.m44,
        y.m11, y.m12, y.m13, y.m14, y.m21, y.m22, y.m23, y.m24, y.m31, y.m32, y.m33, y.m34, y.m41,
            y.m42, y.m43, y.m44,
        z.m13, z.m23, z.m33, z.m43,
    );
    lemma_entry_regrouped(
        x.m41, x.m42, x.m43, x.m44,
        y.m11, y.m12, y.m13, y.m14, y.m21, y.m22, y.m23, y.m24, y.m31, y.m32, y.m33, y.m34, y.m41,
            y.m42, y.m43, y.m44,
        z.m14, z.m24, z.m34, z.m44,
    );
}

/// Composing two exact transforms gives an exact transform: the product of
/// the cached inverses, in the opposite order, undoes the product.
pub proof fn lemma_composition_exact3(a: Transform3Model, b: Transform3Model)
    requires
        a.is_exact(),
        b.is_exact(),
    ensures
        a.compose(b).is_exact(),
{
    let i = Mat4::identity();
    lemma_mul_associative(a.mat, b.mat, b.inv.mul(a.inv));
    lemma_mul_associative(b.mat, b.inv, a.inv);
    assert(i.mul(a.inv) == a.inv);
    assert(a.mat.mul(b.mat).mul(b.inv.mul(a.inv)) == i);
    lemma_mul_associative(b.inv, a.inv, a.mat.mul(b.mat));
    lemma_mul_associative(a.inv, a.mat, b.mat);
    assert(i.mul(b.mat) == b.mat);
    assert(b.inv.mul(a.inv).mul(a.mat.mul(b.mat)) == i);
}

/// Multiplication distributes over sums of two and of three terms.
proof fn lemma_distribute23(a: int, b: int, c: int, n: int)
    by (nonlinear_arith)
    ensures
        (a + b) * n == a * n + b * n,
        n * (a + b) == n * a + n * b,
        (a + b + c) * n == a * n + b * n + c * n,
{
}

/// One entry of the linear part of a product of three affine matrices,
/// grouped either way.
proof fn lemma_linear_entry_regrouped(
    x1: int,
    x2: int,
    y11: int,
    y12: int,
    y21: int,
    y22: int,
    z1: int,
    z2: int,
)
    ensures
        (x1 * y11 + x2 * y21) * z1 + (x1 * y12 + x2 * y22) * z2 == x1 * (y11 * z1 + y12 * z2) + x2
            * (y21 * z1 + y22 * z2),
{
    lemma_distribute23(x1 * y11, x2 * y21, 0, z1);
    lemma_distribute23(x1 * y12, x2 * y22, 0, z2);
    lemma_associate(x1, y11, z1);
    lemma_associate(x2, y21, z1);
    lemma_associate(x1, y12, z2);
    lemma_associate(x2, y22, z2);
    lemma_distribute23(y11 * z1, y12 * z2, 0, x1);
    lemma_distribute23(y21 * z1, y22 * z2, 0, x2);
}

/// One entry of the offset row of a product of three affine matrices,
/// grouped either way.
proof fn lemma_offset_entry_regrouped(
    x1: int,
    x2: int,
    y11: int,
    y12: int,
    y21: int,
    y22: int,
    y31: int,
    y32: int,
    z1: int,
    z2: int,
    z3: int,
)
    ensures
        (x1 * y11 + x2 * y21 + y31) * z1 + (x1 * y12 + x2 * y22 + y32) * z2 + z3 == x1 * (y11 * z1
            + y12 * z2) + x2 * (y21 * z1 + y22 * z2) + (y31 * z1 + y32 * z2 + z3),
{
    lemma_distribute23(x1 * y11, x2 * y21, y31, z1);
    lemma_distribute23(x1 * y12, x2 * y22, y32, z2);
    lemma_associate(x1, y11, z1);
    lemma_associate(x2, y21, z1);
    lemma_associate(x1, y12, z2);
    lemma_associate(x2, y22, z2);
    lemma_distribute23(y11 * z1, y12 * z2, 0, x1);
    lemma_distribute23(y21 * z1, y22 * z2, 0, x2);
}

/// Composition of 2D affine matrices is associative.
pub proof fn lemma_mul_associative2(x: Mat3x2, y: Mat3x2, z: Mat3x2)
    ensures
        x.mul(y).mul(z) == x.mul(y.mul(z)),
{
    lemma_linear_entry_regrouped(x.m11, x.m12, y.m11, y.m12, y.m21, y.m22, z.m11, z.m21);
    lemma_linear_entry_regrouped(x.m11, x.m12, y.m11, y.m12, y.m21, y.m22, z.m12, z.m22);
    lemma_linear_entry_regrouped(x.m21, x.m22, y.m11, y.m12, y.m21, y.m22, z.m11, z.m21);
    lemma_linear_entry_regrouped(x.m21, x.m22, y.m11, y.m12, y.m21, y.m22, z.m12, z.m22);
    lemma_offset_entry_regrouped(
        x.m31,
        x.m32,
        y.m11,
        y.m12,
        y.m21,
        y.m22,
        y.m31,
        y.m32,
        z.m11,
        z.m21,
        z.m31,
    );
    lemma_offset_entry_regrouped(
        x.m31,
        x.m32,
        y.m11,
        y.m12,
        y.m21,
        y.m22,
        y.m31,
        y.m32,
        z.m12,
        z.m22,
        z.m32,
    );
}

/// Composing two exact 2D transforms gives an exact transform.
pub proof fn lemma_composition_exact2(a: Transform2Model, b: Transform2Model)
    requires
        a.is_exact(),
        b.is_exact(),
    ensures
        a.compose(b).is_exact(),
{
    let i = Mat3x2::identity();
    lemma_mul_associative2(a.mat, b.mat, b.inv.mul(a.inv));
    lemma_mul_associative2(b.mat, b.inv, a.inv);
    assert(i.mul(a.inv) == a.inv);
    assert(a.mat.mul(b.mat).mul(b.inv.mul(a.inv)) == i);
    lemma_mul_associative2(b.inv, a.inv, a.mat.mul(b.mat));
    lemma_mul_associative2(a.inv, a.mat, b.mat);
    assert(i.mul(b.mat) == b.mat);
    assert(b.inv.mul(a.inv).mul(a.mat.mul(b.mat)) == i);
}

/// A stretch by factors of one or minus one is undone exactly by the stretch
/// by their reciprocals.
pub proof fn lemma_unit_scaling_exact(x: int, y: int, z: int)
    requires
        x == 1 || x == -1,
        y == 1 || y == -1,
        z == 1 || z == -1,
    ensures
        (Transform3Model {
            mat: Mat4::scaling(x, y, z),
            inv: Mat4::scaling(trunc_div(1, x), trunc_div(1, y), trunc_div(1, z)),
        }).is_exact(),
        (Transform2Model {
            mat: Mat3x2::scaling(x, y),
            inv: Mat3x2::scaling(trunc_div(1, x), trunc_div(1, y)),
        }).is_exact(),
{
    lemma_reciprocal_of_unit(x);
    lemma_reciprocal_of_unit(y);
    lemma_reciprocal_of_unit(z);
    assert(x * x == 1 && y * y == 1 && z * z == 1) by (nonlinear_arith)
        requires
            x == 1 || x == -1,
            y == 1 || y == -1,
            z == 1 || z == -1,
    ;
    assert(x * 0 == 0 && y * 0 == 0 && z * 0 == 0);
    let m = Mat4::scaling(x, y, z);
    let r = m.mul(m);
    assert(r.m11 == x * x + 0 * 0 + 0 * 0 + 0 * 0);
    assert(r.m12 == x * 0 + 0 * y + 0 * 0 + 0 * 0);
    assert(r.m13 == x * 0 + 0 * 0 + 0 * z + 0 * 0);
    assert(r.m14 == x * 0 + 0 * 0 + 0 * 0 + 0 * 1);
    assert(r.m21 == 0 * x + y * 0 + 0 * 0 + 0 * 0);
    assert(r.m22 == 0 * 0 + y * y + 0 * 0 + 0 * 0);
    assert(r.m23 == 0 * 0 + y * 0 + 0 * z + 0 * 0);
    assert(r.m24 == 0 * 0 + y * 0 + 0 * 0 + 0 * 1);
    assert(r.m31 == 0 * x + 0 * 0 + z * 0 + 0 * 0);
    assert(r.m32 == 0 * 0 + 0 * y + z * 0 + 0 * 0);
    assert(r.m33 == 0 * 0 + 0 * 0 + z * z + 0 * 0);
    assert(r.m34 == 0 * 0 + 0 * 0 + z * 0 + 0 * 1);
    assert(r.m41 == 0 * x + 0 * 0 + 0 * 0 + 1 * 0);
    assert(r.m42 == 0 * 0 + 0 * y + 0 * 0 + 1 * 0);
    assert(r.m43 == 0 * 0 + 0 * 0 + 0 * z + 1 * 0);
    assert(r.m44 == 0 * 0 + 0 * 0 + 0 * 0 + 1 * 1);
    assert(r == Mat4::identity());
    let p = Mat3x2::scaling(x, y);
    assert(p.mul(p) == Mat3x2::identity());
}

/// One coordinate of a point turned by a quaternion, regrouped by the
/// coordinates of the point: with `c = 2 * cross(v, p)`, the sum
/// `x + a * cx + j * cz - k * cy` where `cx = 2 * (j * z - k * y)`,
/// `cy = 2 * (k * x - i * z)` and `cz = 2 * (i * y - j * x)`.
proof fn lemma_sandwich_regrouped(a: int, i: int, j: int, k: int, x: int, y: int, z: int)
    ensures
        x + a * ((j * z - k * y) * 2) + j * ((i * y - j * x) * 2) - k * ((k * x - i * z) * 2) == x
            * (1 - 2 * (j * j + k * k)) + y * (2 * (i * j - a * k)) + z * (2 * (i * k + a * j)),
{
    assert(a * ((j * z - k * y) * 2) == 2 * (a * j * z) - 2 * (a * k * y)) by (nonlinear_arith);
    assert(j * ((i * y - j * x) * 2) == 2 * (i * j * y) - 2 * (j * j * x)) by (nonlinear_arith);
    assert(k * ((k * x - i * z) * 2) == 2 * (k * k * x) - 2 * (i * k * z)) by (nonlinear_arith);
    assert(x * (1 - 2 * (j * j + k * k)) == x - 2 * (j * j * x) - 2 * (k * k * x))
        by (nonlinear_arith);
    assert(y * (2 * (i * j - a * k)) == 2 * (i * j * y) - 2 * (a * k * y)) by (nonlinear_arith);
    assert(z * (2 * (i * k + a * j)) == 2 * (i * k * z) + 2 * (a * j * z)) by (nonlinear_arith);
}

/// Turning a point by a quaternion directly gives the same point as turning
/// it by the matrix built from the quaternion.
pub proof fn lemma_quaternion_matrix_agrees(q: Quat, p: Vec3)
    ensures
        mat4_of_quat(q).apply_vector(p) == q.rotate(p),
{
    lemma_sandwich_regrouped(q.a, q.i, q.j, q.k, p.x, p.y, p.z);
    lemma_sandwich_regrouped(q.a, q.j, q.k, q.i, p.y, p.z, p.x);
    lemma_sandwich_regrouped(q.a, q.k, q.i, q.j, p.z, p.x, p.y);
    let m = mat4_of_quat(q);
    let r = q.rotate(p);
    let c = q.vector_part().cross(p).scale(2);
    assert(c.x == (q.j * p.z - q.k * p.y) * 2);
    assert(c.y == (q.k * p.x - q.i * p.z) * 2);
    assert(c.z == (q.i * p.y - q.j * p.x) * 2);
    assert(q.j * q.i == q.i * q.j && q.k * q.j == q.j * q.k && q.k * q.i == q.i * q.k)
        by (nonlinear_arith);
    assert(m.apply_vector(p).x == r.x);
    assert(m.apply_vector(p).y == r.y);
    assert(m.apply_vector(p).z == r.z);
}

/// A blend with weight zero is its first end, with weight one its second.
pub proof fn lemma_lerp_ends(a: Vec3, b: Vec3, c: Vec2, d: Vec2)
    ensures
        a.lerp(b, 0) == a,
        a.lerp(b, 1) == b,
        c.lerp(d, 0) == c,
        c.lerp(d, 1) == d,
{
}

/// The cross product changes sign when its factors change places, and is at
/// right angles to both of them.
pub proof fn lemma_cross_product(a: Vec3, b: Vec3)
    ensures
        b.cross(a) == a.cross(b).neg(),
        a.dot(a.cross(b)) == 0,
        b.dot(a.cross(b)) == 0,
{
    assert(b.y * a.z == a.z * b.y && b.z * a.y == a.y * b.z && b.z * a.x == a.x * b.z && b.x * a.z
        == a.z * b.x && b.x * a.y == a.y * b.x && b.y * a.x == a.x * b.y) by (nonlinear_arith);
    lemma_triple_product(a.x, a.y, a.z, b.x, b.y, b.z);
    lemma_triple_product(b.x, b.y, b.z, a.x, a.y, a.z);
    assert(b.dot(b.cross(a)) == 0);
    assert(b.dot(a.cross(b).neg()) == 0);
    assert(b.x * (-(a.y * b.z - a.z * b.y)) == -(b.x * (a.y * b.z - a.z * b.y)))
        by (nonlinear_arith);
    assert(b.y * (-(a.z * b.x - a.x * b.z)) == -(b.y * (a.z * b.x - a.x * b.z)))
        by (nonlinear_arith);
    assert(b.z * (-(a.x * b.y - a.y * b.x)) == -(b.z * (a.x * b.y - a.y * b.x)))
        by (nonlinear_arith);
}

/// A vector dotted with its own cross product with another is zero.
proof fn lemma_triple_product(x: int, y: int, z: int, u: int, v: int, w: int)
    ensures
        x * (y * w - z * v) + y * (z * u - x * w) + z * (x * v - y * u) == 0,
{
    assert(x * (y * w - z * v) == x * y * w - x * z * v) by (nonlinear_arith);
    assert(y * (z * u - x * w) == y * z * u - x * y * w) by (nonlinear_arith);
    assert(z * (x * v - y * u) == x * z * v - y * z * u) by (nonlinear_arith);
}

/// The dot product does not depend on the order of its factors, and the
/// squared length is never negative.
pub proof fn lemma_dot_product(a: Vec3, b: Vec3)
    ensures
        a.dot(b) == b.dot(a),
        a.dot(a) >= 0,
        a.dot(a) == 0 <==> a == Vec3::zero(),
{
    assert(a.x * b.x == b.x * a.x && a.y * b.y == b.y * a.y && a.z * b.z == b.z * a.z)
        by (nonlinear_arith);
    assert(a.x * a.x >= 0 && a.y * a.y >= 0 && a.z * a.z >= 0) by (nonlinear_arith);
    assert(a.x * a.x == 0 ==> a.x == 0) by (nonlinear_arith);
    assert(a.y * a.y == 0 ==> a.y == 0) by (nonlinear_arith);
    assert(a.z * a.z == 0 ==> a.z == 0) by (nonlinear_arith);
}

/// The quaternion with a cosine as real part and an axis scaled by a sine as
/// vector part has squared norm `|axis|^2 * s^2 + c^2`: one for a unit axis
/// and a sine and cosine of the same angle.
pub proof fn lemma_scaled_axis_norm(axis: Vec3, s: int, c: int)
    ensures
        (Quat { a: c, i: axis.x * s, j: axis.y * s, k: axis.z * s }).norm_squared() == axis.dot(
            axis,
        ) * (s * s) + c * c,
        axis.dot(axis) == 1 && s * s + c * c == 1 ==> (Quat {
            a: c,
            i: axis.x * s,
            j: axis.y * s,
            k: axis.z * s,
        }).is_unit(),
{
    lemma_pair_product(axis.x, s, axis.x, s);
    lemma_pair_product(axis.y, s, axis.y, s);
    lemma_pair_product(axis.z, s, axis.z, s);
    lemma_distribute23(axis.x * axis.x, axis.y * axis.y, axis.z * axis.z, s * s);
    if axis.dot(axis) == 1 {
        lemma_mul_congruent(s * s, axis.dot(axis), 1);
    }
}

/// Squares of the three shapes an entry of a quaternion's matrix takes.
proof fn lemma_entry_squares(u: int, p: int, q: int)
    by (nonlinear_arith)
    ensures
        (1 - 2 * u) * (1 - 2 * u) == 1 - 4 * u + 4 * (u * u),
        (2 * (p + q)) * (2 * (p + q)) == 4 * (p * p) + 8 * (p * q) + 4 * (q * q),
        (2 * (p - q)) * (2 * (p - q)) == 4 * (p * p) - 8 * (p * q) + 4 * (q * q),
        (p + q) * (p + q) == p * p + 2 * (p * q) + q * q,
{
}

/// A sum of two terms times a sum of five, written out.
proof fn lemma_distribute2x5(x: int, y: int, n1: int, n2: int, n3: int, n4: int, n5: int)
    by (nonlinear_arith)
    ensures
        (x + y) * (n1 + n2 + n3 + n4 - n5) == x * n1 + x * n2 + x * n3 + x * n4 - x * n5 + y * n1
            + y * n2 + y * n3 + y * n4 - y * n5,
{
}

/// The squared length of the first row of a quaternion's matrix exceeds one
/// by four times `j^2 + k^2` times the excess of the squared norm over one.
proof fn lemma_quat_row_length(a: int, i: int, j: int, k: int)
    ensures
        (1 - 2 * (j * j + k * k)) * (1 - 2 * (j * j + k * k)) + (2 * (i * j + a * k)) * (2 * (i * j
            + a * k)) + (2 * (i * k - a * j)) * (2 * (i * k - a * j)) == 1 + 4 * ((j * j + k * k)
            * (a * a + i * i + j * j + k * k - 1)),
{
    let u = j * j + k * k;
    lemma_entry_squares(u, i * j, a * k);
    lemma_entry_squares(u, i * k, a * j);
    lemma_entry_squares(1, j * j, k * k);
    lemma_distribute2x5(j * j, k * k, a * a, i * i, j * j, k * k, 1);
    lemma_pair_product(i, j, i, j);
    lemma_pair_product(a, k, a, k);
    lemma_pair_product(i, k, i, k);
    lemma_pair_product(a, j, a, j);
    lemma_pair_product(i, j, a, k);
    lemma_pair_product(i, k, a, j);
    lemma_mul_commutes(j * j, a * a);
    lemma_mul_commutes(j * j, i * i);
    lemma_mul_commutes(k * k, a * a);
    lemma_mul_commutes(k * k, i * i);
    lemma_mul_commutes(k * k, j * j);
    lemma_mul_commutes(j * j, 1);
    lemma_mul_commutes(k * k, 1);
}

/// A product does not depend on the order of its factors.
pub(crate) proof fn lemma_mul_commutes(x: int, y: int)
    by (nonlinear_arith)
    ensures
        x * y == y * x,
{
}

/// Products of the shapes that the entries of two different rows of a
/// quaternion's matrix take.
proof fn lemma_entry_products(u: int, p: int, q: int, v: int, r: int, s: int, w: int, x: int)
    by (nonlinear_arith)
    ensures
        (1 - 2 * u) * (2 * (p - q)) == 2 * p - 2 * q - 4 * (u * p) + 4 * (u * q),
        (2 * (p + q)) * (1 - 2 * v) == 2 * p + 2 * q - 4 * (p * v) - 4 * (q * v),
        (2 * (r - s)) * (2 * (w + x)) == 4 * (r * w) + 4 * (r * x) - 4 * (s * w) - 4 * (s * x),
{
}

/// A term times a sum of five, written out.
pub(crate) proof fn lemma_distribute1x5(x: int, n1: int, n2: int, n3: int, n4: int, n5: int)
    by (nonlinear_arith)
    ensures
        x * (n1 + n2 + n3 + n4 - n5) == x * n1 + x * n2 + x * n3 + x * n4 - x * n5,
{
}

/// Two rows of a quaternion's matrix are at right angles up to a multiple of
/// the excess of the squared norm over one.
proof fn lemma_quat_rows_apart(a: int, i: int, j: int, k: int)
    ensures
        (1 - 2 * (j * j + k * k)) * (2 * (i * j - a * k)) + (2 * (i * j + a * k)) * (1 - 2 * (i * i
            + k * k)) + (2 * (i * k - a * j)) * (2 * (j * k + a * i)) == -4 * ((i * j) * (a * a + i
            * i + j * j + k * k - 1)),
{
    lemma_entry_products(j * j + k * k, i * j, a * k, i * i + k * k, i * k, a * j, j * k, a * i);
    lemma_distribute23(j * j, k * k, 0, i * j);
    lemma_distribute23(j * j, k * k, 0, a * k);
    lemma_distribute23(i * i, k * k, 0, i * j);
    lemma_distribute23(i * i, k * k, 0, a * k);
    lemma_distribute1x5(i * j, a * a, i * i, j * j, k * k, 1);
    lemma_mul_commutes(j * j, i * j);
    lemma_mul_commutes(k * k, i * j);
    lemma_mul_commutes(k * k, a * k);
    lemma_pair_product(j, j, a, k);
    lemma_pair_product(a, k, i, i);
    lemma_pair_product(i, k, a, i);
    lemma_pair_product(i, k, j, k);
    lemma_pair_product(a, j, j, k);
    lemma_pair_product(a, j, a, i);
    lemma_mul_commutes(a * a, i * j);
    lemma_mul_commutes(a * a, j * i);
    lemma_mul_commutes(i, j);
    lemma_mul_commutes(k, i);
    lemma_mul_commutes(i * j, 1);
}

/// Equal factors give equal products.
proof fn lemma_products_agree(x1: int, y1: int, x2: int, y2: int)
    requires
        x1 == x2,
        y1 == y2,
    ensures
        x1 * y1 == x2 * y2,
{
}

/// For a unit quaternion, the first row of its matrix has length one and is
/// at right angles to the second.
pub(crate) proof fn lemma_unit_rows(a: int, i: int, j: int, k: int)
    requires
        a * a + i * i + j * j + k * k == 1,
    ensures
        (1 - 2 * (j * j + k * k)) * (1 - 2 * (j * j + k * k)) + (2 * (i * j + a * k)) * (2 * (i * j
            + a * k)) + (2 * (i * k - a * j)) * (2 * (i * k - a * j)) == 1,
        (1 - 2 * (j * j + k * k)) * (2 * (i * j - a * k)) + (2 * (i * j + a * k)) * (1 - 2 * (i * i
            + k * k)) + (2 * (i * k - a * j)) * (2 * (j * k + a * i)) == 0,
        (2 * (i * j - a * k)) * (1 - 2 * (j * j + k * k)) + (1 - 2 * (i * i + k * k)) * (2 * (i * j
            + a * k)) + (2 * (j * k + a * i)) * (2 * (i * k - a * j)) == 0,
{
    lemma_quat_row_length(a, i, j, k);
    lemma_mul_congruent(j * j + k * k, a * a + i * i + j * j + k * k - 1, 0);
    lemma_quat_rows_apart(a, i, j, k);
    lemma_mul_congruent(i * j, a * a + i * i + j * j + k * k - 1, 0);
    lemma_mul_commutes(1 - 2 * (j * j + k * k), 2 * (i * j - a * k));
    lemma_mul_commutes(2 * (i * j + a * k), 1 - 2 * (i * i + k * k));
    lemma_mul_commutes(2 * (i * k - a * j), 2 * (j * k + a * i));
}

/// The matrix of a unit quaternion is undone exactly by its transpose, on both
/// sides: the transform built from a rotation is exact.
pub proof fn lemma_quat_matrix_exact(q: Quat)
    requires
        q.is_unit(),
    ensures
        (Transform3Model { mat: mat4_of_quat(q), inv: mat4_of_quat(q).transpose() }).is_exact(),
{
    lemma_mul_negated(q.i, q.a);
    lemma_mul_negated(q.j, q.a);
    lemma_mul_negated(q.k, q.a);
    lemma_mul_commutes(q.i, q.j);
    lemma_mul_commutes(q.i, q.k);
    lemma_mul_commutes(q.j, q.k);
    assert((-q.a) * (-q.a) == q.a * q.a) by (nonlinear_arith);
    let m = mat4_of_quat(q);
    let t = m.transpose();
    lemma_unit_rows(q.a, q.i, q.j, q.k);
    lemma_products_agree(
        m.m11,
        t.m11,
        1 - 2 * (q.j * q.j + q.k * q.k),
        1 - 2 * (q.j * q.j + q.k * q.k),
    );
    lemma_products_agree(m.m12, t.m21, 2 * (q.i * q.j + q.a * q.k), 2 * (q.i * q.j + q.a * q.k));
    lemma_products_agree(m.m13, t.m31, 2 * (q.i * q.k - q.a * q.j), 2 * (q.i * q.k - q.a * q.j));
    lemma_products_agree(
        m.m11,
        t.m12,
        1 - 2 * (q.j * q.j + q.k * q.k),
        2 * (q.i * q.j - q.a * q.k),
    );
    lemma_products_agree(
        m.m21,
        t.m11,
        2 * (q.i * q.j - q.a * q.k),
        1 - 2 * (q.j * q.j + q.k * q.k),
    );
    lemma_products_agree(
        m.m12,
        t.m22,
        2 * (q.i * q.j + q.a * q.k),
        1 - 2 * (q.i * q.i + q.k * q.k),
    );
    lemma_products_agree(
        m.m22,
        t.m21,
        1 - 2 * (q.i * q.i + q.k * q.k),
        2 * (q.i * q.j + q.a * q.k),
    );
    lemma_products_agree(m.m13, t.m32, 2 * (q.i * q.k - q.a * q.j), 2 * (q.j * q.k + q.a * q.i));
    lemma_products_agree(m.m23, t.m31, 2 * (q.j * q.k + q.a * q.i), 2 * (q.i * q.k - q.a * q.j));
    lemma_unit_rows(q.a, q.j, q.k, q.i);
    lemma_products_agree(
        m.m22,
        t.m22,
        1 - 2 * (q.k * q.k + q.i * q.i),
        1 - 2 * (q.k * q.k + q.i * q.i),
    );
    lemma_products_agree(m.m23, t.m32, 2 * (q.j * q.k + q.a * q.i), 2 * (q.j * q.k + q.a * q.i));
    lemma_products_agree(m.m21, t.m12, 2 * (q.j * q.i - q.a * q.k), 2 * (q.j * q.i - q.a * q.k));
    lemma_products_agree(
        m.m22,
        t.m23,
        1 - 2 * (q.k * q.k + q.i * q.i),
        2 * (q.j * q.k - q.a * q.i),
    );
    lemma_products_agree(
        m.m32,
        t.m22,
        2 * (q.j * q.k - q.a * q.i),
        1 - 2 * (q.k * q.k + q.i * q.i),
    );
    lemma_products_agree(
        m.m23,
        t.m33,
        2 * (q.j * q.k + q.a * q.i),
        1 - 2 * (q.j * q.j + q.i * q.i),
    );
    lemma_products_agree(
        m.m33,
        t.m32,
        1 - 2 * (q.j * q.j + q.i * q.i),
        2 * (q.j * q.k + q.a * q.i),
    );
    lemma_products_agree(m.m21, t.m13, 2 * (q.j * q.i - q.a * q.k), 2 * (q.k * q.i + q.a * q.j));
    lemma_products_agree(m.m31, t.m12, 2 * (q.k * q.i + q.a * q.j), 2 * (q.j * q.i - q.a * q.k));
    lemma_unit_rows(q.a, q.k, q.i, q.j);
    lemma_products_agree(
        m.m33,
        t.m33,
        1 - 2 * (q.i * q.i + q.j * q.j),
        1 - 2 * (q.i * q.i + q.j * q.j),
    );
    lemma_products_agree(m.m31, t.m13, 2 * (q.k * q.i + q.a * q.j), 2 * (q.k * q.i + q.a * q.j));
    lemma_products_agree(m.m32, t.m23, 2 * (q.k * q.j - q.a * q.i), 2 * (q.k * q.j - q.a * q.i));
    lemma_products_agree(
        m.m33,
        t.m31,
        1 - 2 * (q.i * q.i + q.j * q.j),
        2 * (q.k * q.i - q.a * q.j),
    );
    lemma_products_agree(
        m.m13,
        t.m33,
        2 * (q.k * q.i - q.a * q.j),
        1 - 2 * (q.i * q.i + q.j * q.j),
    );
    lemma_products_agree(
        m.m31,
        t.m11,
        2 * (q.k * q.i + q.a * q.j),
        1 - 2 * (q.k * q.k + q.j * q.j),
    );
    lemma_products_agree(
        m.m11,
        t.m13,
        1 - 2 * (q.k * q.k + q.j * q.j),
        2 * (q.k * q.i + q.a * q.j),
    );
    lemma_products_agree(m.m32, t.m21, 2 * (q.k * q.j - q.a * q.i), 2 * (q.i * q.j + q.a * q.k));
    lemma_products_agree(m.m12, t.m23, 2 * (q.i * q.j + q.a * q.k), 2 * (q.k * q.j - q.a * q.i));
    lemma_unit_rows((-q.a), q.i, q.j, q.k);
    lemma_products_agree(
        t.m11,
        m.m11,
        1 - 2 * (q.j * q.j + q.k * q.k),
        1 - 2 * (q.j * q.j + q.k * q.k),
    );
    lemma_products_agree(
        t.m12,
        m.m21,
        2 * (q.i * q.j + (-q.a) * q.k),
        2 * (q.i * q.j + (-q.a) * q.k),
    );
    lemma_products_agree(
        t.m13,
        m.m31,
        2 * (q.i * q.k - (-q.a) * q.j),
        2 * (q.i * q.k - (-q.a) * q.j),
    );
    lemma_products_agree(
        t.m11,
        m.m12,
        1 - 2 * (q.j * q.j + q.k * q.k),
        2 * (q.i * q.j - (-q.a) * q.k),
    );
    lemma_products_agree(
        t.m21,
        m.m11,
        2 * (q.i * q.j - (-q.a) * q.k),
        1 - 2 * (q.j * q.j + q.k * q.k),
    );
    lemma_products_agree(
        t.m12,
        m.m22,
        2 * (q.i * q.j + (-q.a) * q.k),
        1 - 2 * (q.i * q.i + q.k * q.k),
    );
    lemma_products_agree(
        t.m22,
        m.m21,
        1 - 2 * (q.i * q.i + q.k * q.k),
        2 * (q.i * q.j + (-q.a) * q.k),
    );
    lemma_products_agree(
        t.m13,
        m.m32,
        2 * (q.i * q.k - (-q.a) * q.j),
        2 * (q.j * q.k + (-q.a) * q.i),
    );
    lemma_products_agree(
        t.m23,
        m.m31,
        2 * (q.j * q.k + (-q.a) * q.i),
        2 * (q.i * q.k - (-q.a) * q.j),
    );
    lemma_unit_rows((-q.a), q.j, q.k, q.i);
    lemma_products_agree(
        t.m22,
        m.m22,
        1 - 2 * (q.k * q.k + q.i * q.i),
        1 - 2 * (q.k * q.k + q.i * q.i),
    );
    lemma_products_agree(
        t.m23,
        m.m32,
        2 * (q.j * q.k + (-q.a) * q.i),
        2 * (q.j * q.k + (-q.a) * q.i),
    );
    lemma_products_agree(
        t.m21,
        m.m12,
        2 * (q.j * q.i - (-q.a) * q.k),
        2 * (q.j * q.i - (-q.a) * q.k),
    );
    lemma_products_agree(
        t.m22,
        m.m23,
        1 - 2 * (q.k * q.k + q.i * q.i),
        2 * (q.j * q.k - (-q.a) * q.i),
    );
    lemma_products_agree(
        t.m32,
        m.m22,
        2 * (q.j * q.k - (-q.a) * q.i),
        1 - 2 * (q.k * q.k + q.i * q.i),
    );
    lemma_products_agree(
        t.m23,
        m.m33,
        2 * (q.j * q.k + (-q.a) * q.i),
        1 - 2 * (q.j * q.j + q.i * q.i),
    );
    lemma_products_agree(
        t.m33,
        m.m32,
        1 - 2 * (q.j * q.j + q.i * q.i),
        2 * (q.j * q.k + (-q.a) * q.i),
    );
    lemma_products_agree(
        t.m21,
        m.m13,
        2 * (q.j * q.i - (-q.a) * q.k),
        2 * (q.k * q.i + (-q.a) * q.j),
    );
    lemma_products_agree(
        t.m31,
        m.m12,
        2 * (q.k * q.i + (-q.a) * q.j),
        2 * (q.j * q.i - (-q.a) * q.k),
    );
    lemma_unit_rows((-q.a), q.k, q.i, q.j);
    lemma_products_agree(
        t.m33,
        m.m33,
        1 - 2 * (q.i * q.i + q.j * q.j),
        1 - 2 * (q.i * q.i + q.j * q.j),
    );
    lemma_products_agree(
        t.m31,
        m.m13,
        2 * (q.k * q.i + (-q.a) * q.j),
        2 * (q.k * q.i + (-q.a) * q.j),
    );
    lemma_products_agree(
        t.m32,
        m.m23,
        2 * (q.k * q.j - (-q.a) * q.i),
        2 * (q.k * q.j - (-q.a) * q.i),
    );
    lemma_products_agree(
        t.m33,
        m.m31,
        1 - 2 * (q.i * q.i + q.j * q.j),
        2 * (q.k * q.i - (-q.a) * q.j),
    );
    lemma_products_agree(
        t.m13,
        m.m33,
        2 * (q.k * q.i - (-q.a) * q.j),
        1 - 2 * (q.i * q.i + q.j * q.j),
    );
    lemma_products_agree(
        t.m31,
        m.m11,
        2 * (q.k * q.i + (-q.a) * q.j),
        1 - 2 * (q.k * q.k + q.j * q.j),
    );
    lemma_products_agree(
        t.m11,
        m.m13,
        1 - 2 * (q.k * q.k + q.j * q.j),
        2 * (q.k * q.i + (-q.a) * q.j),
    );
    lemma_products_agree(
        t.m32,
        m.m21,
        2 * (q.k * q.j - (-q.a) * q.i),
        2 * (q.i * q.j + (-q.a) * q.k),
    );
    lemma_products_agree(
        t.m12,
        m.m23,
        2 * (q.i * q.j + (-q.a) * q.k),
        2 * (q.k * q.j - (-q.a) * q.i),
    );
    lemma_products_agree(m.m14, t.m41, 0, 0);
    lemma_products_agree(m.m14, t.m42, 0, 0);
    lemma_products_agree(m.m14, t.m43, 0, 0);
    lemma_products_agree(m.m11, t.m14, m.m11, 0);
    lemma_products_agree(m.m12, t.m24, m.m12, 0);
    lemma_products_agree(m.m13, t.m34, m.m13, 0);
    lemma_products_agree(m.m14, t.m44, 0, 1);
    lemma_products_agree(m.m24, t.m41, 0, 0);
    lemma_products_agree(m.m24, t.m42, 0, 0);
    lemma_products_agree(m.m24, t.m43, 0, 0);
    lemma_products_agree(m.m21, t.m14, m.m21, 0);
    lemma_products_agree(m.m22, t.m24, m.m22, 0);
    lemma_products_agree(m.m23, t.m34, m.m23, 0);
    lemma_products_agree(m.m24, t.m44, 0, 1);
    lemma_products_agree(m.m34, t.m41, 0, 0);
    lemma_products_agree(m.m34, t.m42, 0, 0);
    lemma_products_agree(m.m34, t.m43, 0, 0);
    lemma_products_agree(m.m31, t.m14, m.m31, 0);
    lemma_products_agree(m.m32, t.m24, m.m32, 0);
    lemma_products_agree(m.m33, t.m34, m.m33, 0);
    lemma_products_agree(m.m34, t.m44, 0, 1);
    lemma_products_agree(m.m41, t.m11, 0, t.m11);
    lemma_products_agree(m.m42, t.m21, 0, t.m21);
    lemma_products_agree(m.m43, t.m31, 0, t.m31);
    lemma_products_agree(m.m44, t.m41, 1, 0);
    lemma_products_agree(m.m41, t.m12, 0, t.m12);
    lemma_products_agree(m.m42, t.m22, 0, t.m22);
    lemma_products_agree(m.m43, t.m32, 0, t.m32);
    lemma_products_agree(m.m44, t.m42, 1, 0);
    lemma_products_agree(m.m41, t.m13, 0, t.m13);
    lemma_products_agree(m.m42, t.m23, 0, t.m23);
    lemma_products_agree(m.m43, t.m33, 0, t.m33);
    lemma_products_agree(m.m44, t.m43, 1, 0);
    lemma_products_agree(m.m41, t.m14, 0, 0);
    lemma_products_agree(m.m42, t.m24, 0, 0);
    lemma_products_agree(m.m43, t.m34, 0, 0);
    lemma_products_agree(m.m44, t.m44, 1, 1);
    lemma_products_agree(t.m14, m.m41, 0, 0);
    lemma_products_agree(t.m14, m.m42, 0, 0);
    lemma_products_agree(t.m14, m.m43, 0, 0);
    lemma_products_agree(t.m11, m.m14, t.m11, 0);
    lemma_products_agree(t.m12, m.m24, t.m12, 0);
    lemma_products_agree(t.m13, m.m34, t.m13, 0);
    lemma_products_agree(t.m14, m.m44, 0, 1);
    lemma_products_agree(t.m24, m.m41, 0, 0);
    lemma_products_agree(t.m24, m.m42, 0, 0);
    lemma_products_agree(t.m24, m.m43, 0, 0);
    lemma_products_agree(t.m21, m.m14, t.m21, 0);
    lemma_products_agree(t.m22, m.m24, t.m22, 0);
    lemma_products_agree(t.m23, m.m34, t.m23, 0);
    lemma_products_agree(t.m24, m.m44, 0, 1);
    lemma_products_agree(t.m34, m.m41, 0, 0);
    lemma_products_agree(t.m34, m.m42, 0, 0);
    lemma_products_agree(t.m34, m.m43, 0, 0);
    lemma_products_agree(t.m31, m.m14, t.m31, 0);
    lemma_products_agree(t.m32, m.m24, t.m32, 0);
    lemma_products_agree(t.m33, m.m34, t.m33, 0);
    lemma_products_agree(t.m34, m.m44, 0, 1);
    lemma_products_agree(t.m41, m.m11, 0, m.m11);
    lemma_products_agree(t.m42, m.m21, 0, m.m21);
    lemma_products_agree(t.m43, m.m31, 0, m.m31);
    lemma_products_agree(t.m44, m.m41, 1, 0);
    lemma_products_agree(t.m41, m.m12, 0, m.m12);
    lemma_products_agree(t.m42, m.m22, 0, m.m22);
    lemma_products_agree(t.m43, m.m32, 0, m.m32);
    lemma_products_agree(t.m44, m.m42, 1, 0);
    lemma_products_agree(t.m41, m.m13, 0, m.m13);
    lemma_products_agree(t.m42, m.m23, 0, m.m23);
    lemma_products_agree(t.m43, m.m33, 0, m.m33);
    lemma_products_agree(t.m44, m.m43, 1, 0);
    lemma_products_agree(t.m41, m.m14, 0, 0);
    lemma_products_agree(t.m42, m.m24, 0, 0);
    lemma_products_agree(t.m43, m.m34, 0, 0);
    lemma_products_agree(t.m44, m.m44, 1, 1);
    let p = m.mul(t);
    assert(m.m12 * t.m21 == (2 * (q.i * q.j + q.a * q.k)) * (2 * (q.i * q.j + q.a * q.k)));
    assert(m.m13 * t.m31 == (2 * (q.i * q.k - q.a * q.j)) * (2 * (q.i * q.k - q.a * q.j)));
    assert(p.m11 == 1 && p.m22 == 1 && p.m33 == 1 && p.m44 == 1);
    assert(p.m12 == 0 && p.m23 == 0 && p.m31 == 0);
    assert(p.m21 == 0 && p.m32 == 0 && p.m13 == 0);
    assert(p == Mat4::identity());
    let r = t.mul(m);
    assert(r.m11 == 1 && r.m22 == 1 && r.m33 == 1 && r.m44 == 1);
    assert(r.m12 == 0 && r.m23 == 0 && r.m31 == 0);
    assert(r.m21 == 0 && r.m32 == 0 && r.m13 == 0);
    assert(r == Mat4::identity());
}

/// A blend of two quaternions is the first for weight zero and the second for
/// weight one.
pub proof fn lemma_blend_ends(q: Quat, r: Quat, t: int)
    ensures
        t == 0 ==> q.blend(r, t) == q,
        t == 1 ==> q.blend(r, t) == r,
{
    if t == 0 || t == 1 {
        lemma_mul_congruent(q.a, 1 - t, if t == 0 { 1int } else { 0int });
        lemma_mul_congruent(q.i, 1 - t, if t == 0 { 1int } else { 0int });
        lemma_mul_congruent(q.j, 1 - t, if t == 0 { 1int } else { 0int });
        lemma_mul_congruent(q.k, 1 - t, if t == 0 { 1int } else { 0int });
        lemma_mul_congruent(r.a, t, if t == 0 { 0int } else { 1int });
        lemma_mul_congruent(r.i, t, if t == 0 { 0int } else { 1int });
        lemma_mul_congruent(r.j, t, if t == 0 { 0int } else { 1int });
        lemma_mul_congruent(r.k, t, if t == 0 { 0int } else { 1int });
    }
}

/// Round trip in the plane: a 2D transform whose cached inverse is exact takes
/// a point to a point from which the inverse transform recovers the original.
pub proof fn lemma_round_trip2<T: Scalar, Src, Dst>(t: Transform2<T, Src, Dst>, p: Vec2)
    requires
        t.is_exact(),
    ensures
        t@.inverse().mat.apply_point(t@.mat.apply_point(p)) == p,
        t@.mat.apply_point(t@.inverse().mat.apply_point(p)) == p,
{
    lemma_affine_there_and_back(t@.mat, t@.inv, p);
    lemma_affine_there_and_back(t@.inv, t@.mat, p);
}

/// An affine map followed by a map that undoes it on the right leaves every
/// point where it was.
proof fn lemma_affine_there_and_back(m: Mat3x2, n: Mat3x2, p: Vec2)
    requires
        m.mul(n) == Mat3x2::identity(),
    ensures
        n.apply_point(m.apply_point(p)) == p,
{
    let h = m.apply_point(p);
    let i = m.mul(n);
    lemma_offset_entry_regrouped(
        p.x,
        p.y,
        m.m11,
        m.m12,
        m.m21,
        m.m22,
        m.m31,
        m.m32,
        n.m11,
        n.m21,
        n.m31,
    );
    lemma_offset_entry_regrouped(
        p.x,
        p.y,
        m.m11,
        m.m12,
        m.m21,
        m.m22,
        m.m31,
        m.m32,
        n.m12,
        n.m22,
        n.m32,
    );
    lemma_mul_congruent(n.m11, h.x, p.x * m.m11 + p.y * m.m21 + m.m31);
    lemma_mul_congruent(n.m21, h.y, p.x * m.m12 + p.y * m.m22 + m.m32);
    lemma_mul_congruent(n.m12, h.x, p.x * m.m11 + p.y * m.m21 + m.m31);
    lemma_mul_congruent(n.m22, h.y, p.x * m.m12 + p.y * m.m22 + m.m32);
    assert(i.m11 == m.m11 * n.m11 + m.m12 * n.m21);
    assert(i.m21 == m.m21 * n.m11 + m.m22 * n.m21);
    assert(i.m31 == m.m31 * n.m11 + m.m32 * n.m21 + n.m31);
    assert(i.m12 == m.m11 * n.m12 + m.m12 * n.m22);
    assert(i.m22 == m.m21 * n.m12 + m.m22 * n.m22);
    assert(i.m32 == m.m31 * n.m12 + m.m32 * n.m22 + n.m32);
    lemma_mul_congruent(p.x, m.m11 * n.m11 + m.m12 * n.m21, 1);
    lemma_mul_congruent(p.y, m.m21 * n.m11 + m.m22 * n.m21, 0);
    lemma_mul_congruent(p.x, m.m11 * n.m12 + m.m12 * n.m22, 0);
    lemma_mul_congruent(p.y, m.m21 * n.m12 + m.m22 * n.m22, 1);
    let g = n.apply_point(h);
    assert(g.x == h.x * n.m11 + h.y * n.m21 + n.m31);
    assert(g.y == h.x * n.m12 + h.y * n.m22 + n.m32);
    assert(g.x == p.x);
    assert(g.y == p.y);
}

/// The matrix of the conjugate of a quaternion is the transpose of its matrix.
pub proof fn lemma_conjugate_matrix(q: Quat)
    ensures
        mat4_of_quat(q.conjugate()) == mat4_of_quat(q).transpose(),
{
    let c = q.conjugate();
    lemma_mul_negated(-q.j, q.i);
    lemma_mul_negated(-q.k, q.i);
    lemma_mul_negated(-q.k, q.j);
    lemma_mul_negated(-q.i, q.i);
    lemma_mul_negated(-q.j, q.j);
    lemma_mul_negated(-q.k, q.k);
    lemma_mul_negated(q.i, q.j);
    lemma_mul_negated(q.i, q.k);
    lemma_mul_negated(q.j, q.k);
    lemma_mul_negated(q.i, q.i);
    lemma_mul_negated(q.j, q.j);
    lemma_mul_negated(q.k, q.k);
    lemma_mul_negated(q.a, q.i);
    lemma_mul_negated(q.a, q.j);
    lemma_mul_negated(q.a, q.k);
    assert((-q.i) * (-q.j) == q.i * q.j);
    assert((-q.i) * (-q.k) == q.i * q.k);
    assert((-q.j) * (-q.k) == q.j * q.k);
    assert((-q.i) * (-q.i) == q.i * q.i);
    assert((-q.j) * (-q.j) == q.j * q.j);
    assert((-q.k) * (-q.k) == q.k * q.k);
}

/// The upper-left 3x3 block of a matrix applied to a direction, and then the
/// block of a second matrix, is the block of their product applied once.
proof fn lemma_vector_through_product(m: Mat4, n: Mat4, v: Vec3)
    requires
        m.is_affine(),
        n.is_affine(),
    ensures
        n.apply_vector(m.apply_vector(v)) == m.mul(n).apply_vector(v),
{
    let h = m.apply_vector(v);
    let i = m.mul(n);
    lemma_row_regrouped(
        v.x, v.y, v.z,
        m.m11, m.m21, m.m31, 0,
        m.m12, m.m22, m.m32, 0,
        m.m13, m.m23, m.m33, 0,
        n.m11, n.m21, n.m31,
    );
    lemma_row_regrouped(
        v.x, v.y, v.z,
        m.m11, m.m21, m.m31, 0,
        m.m12, m.m22, m.m32, 0,
        m.m13, m.m23, m.m33, 0,
        n.m12, n.m22, n.m32,
    );
    lemma_row_regrouped(
        v.x, v.y, v.z,
        m.m11, m.m21, m.m31, 0,
        m.m12, m.m22, m.m32, 0,
        m.m13, m.m23, m.m33, 0,
        n.m13, n.m23, n.m33,
    );
    lemma_mul_congruent(n.m11, h.x, v.x * m.m11 + v.y * m.m21 + v.z * m.m31 + 0);
    lemma_mul_congruent(n.m21, h.y, v.x * m.m12 + v.y * m.m22 + v.z * m.m32 + 0);
    lemma_mul_congruent(n.m31, h.z, v.x * m.m13 + v.y * m.m23 + v.z * m.m33 + 0);
    lemma_mul_congruent(n.m12, h.x, v.x * m.m11 + v.y * m.m21 + v.z * m.m31 + 0);
    lemma_mul_congruent(n.m22, h.y, v.x * m.m12 + v.y * m.m22 + v.z * m.m32 + 0);
    lemma_mul_congruent(n.m32, h.z, v.x * m.m13 + v.y * m.m23 + v.z * m.m33 + 0);
    lemma_mul_congruent(n.m13, h.x, v.x * m.m11 + v.y * m.m21 + v.z * m.m31 + 0);
    lemma_mul_congruent(n.m23, h.y, v.x * m.m12 + v.y * m.m22 + v.z * m.m32 + 0);
    lemma_mul_congruent(n.m33, h.z, v.x * m.m13 + v.y * m.m23 + v.z * m.m33 + 0);
    lemma_mul_congruent(n.m41, m.m14, 0);
    lemma_mul_congruent(n.m41, m.m24, 0);
    lemma_mul_congruent(n.m41, m.m34, 0);
    lemma_mul_congruent(n.m42, m.m14, 0);
    lemma_mul_congruent(n.m42, m.m24, 0);
    lemma_mul_congruent(n.m42, m.m34, 0);
    lemma_mul_congruent(n.m43, m.m14, 0);
    lemma_mul_congruent(n.m43, m.m24, 0);
    lemma_mul_congruent(n.m43, m.m34, 0);
    let g = n.apply_vector(h);
    let e = i.apply_vector(v);
    assert(i.m11 == m.m11 * n.m11 + m.m12 * n.m21 + m.m13 * n.m31 + m.m14 * n.m41);
    assert(i.m21 == m.m21 * n.m11 + m.m22 * n.m21 + m.m23 * n.m31 + m.m24 * n.m41);
    assert(i.m31 == m.m31 * n.m11 + m.m32 * n.m21 + m.m33 * n.m31 + m.m34 * n.m41);
    assert(i.m12 == m.m11 * n.m12 + m.m12 * n.m22 + m.m13 * n.m32 + m.m14 * n.m42);
    assert(i.m22 == m.m21 * n.m12 + m.m22 * n.m22 + m.m23 * n.m32 + m.m24 * n.m42);
    assert(i.m32 == m.m31 * n.m12 + m.m32 * n.m22 + m.m33 * n.m32 + m.m34 * n.m42);
    assert(i.m13 == m.m11 * n.m13 + m.m12 * n.m23 + m.m13 * n.m33 + m.m14 * n.m43);
    assert(i.m23 == m.m21 * n.m13 + m.m22 * n.m23 + m.m23 * n.m33 + m.m24 * n.m43);
    assert(i.m33 == m.m31 * n.m13 + m.m32 * n.m23 + m.m33 * n.m33 + m.m34 * n.m43);
    lemma_mul_congruent(v.x, i.m11, m.m11 * n.m11 + m.m12 * n.m21 + m.m13 * n.m31);
    lemma_mul_congruent(v.y, i.m21, m.m21 * n.m11 + m.m22 * n.m21 + m.m23 * n.m31);
    lemma_mul_congruent(v.z, i.m31, m.m31 * n.m11 + m.m32 * n.m21 + m.m33 * n.m31);
    lemma_mul_congruent(v.x, i.m12, m.m11 * n.m12 + m.m12 * n.m22 + m.m13 * n.m32);
    lemma_mul_congruent(v.y, i.m22, m.m21 * n.m12 + m.m22 * n.m22 + m.m23 * n.m32);
    lemma_mul_congruent(v.z, i.m32, m.m31 * n.m12 + m.m32 * n.m22 + m.m33 * n.m32);
    lemma_mul_congruent(v.x, i.m13, m.m11 * n.m13 + m.m12 * n.m23 + m.m13 * n.m33);
    lemma_mul_congruent(v.y, i.m23, m.m21 * n.m13 + m.m22 * n.m23 + m.m23 * n.m33);
    lemma_mul_congruent(v.z, i.m33, m.m31 * n.m13 + m.m32 * n.m23 + m.m33 * n.m33);
    assert(g.x == e.x);
    assert(g.y == e.y);
    assert(g.z == e.z);
}

/// Round trip for rotations: a unit quaternion turns a point to a point that
/// its conjugate turns back, and the other way round.
pub proof fn lemma_rotation_round_trip(q: Quat, p: Vec3)
    requires
        q.is_unit(),
    ensures
        q.conjugate().rotate(q.rotate(p)) == p,
        q.rotate(q.conjugate().rotate(p)) == p,
{
    let m = mat4_of_quat(q);
    let t = m.transpose();
    lemma_quat_matrix_exact(q);
    lemma_conjugate_matrix(q);
    lemma_quaternion_matrix_agrees(q, p);
    lemma_quaternion_matrix_agrees(q.conjugate(), q.rotate(p));
    lemma_quaternion_matrix_agrees(q.conjugate(), p);
    lemma_quaternion_matrix_agrees(q, q.conjugate().rotate(p));
    lemma_vector_through_product(m, t, p);
    lemma_vector_through_product(t, m, p);
    assert(Mat4::identity().apply_vector(p) == p);
}

/// Regroupings that relate the axis-and-angle form of a rotation matrix to
/// the quaternion form.
proof fn lemma_axis_angle_terms(p: int, q: int, n: int, c: int, z: int, s: int)
    by (nonlinear_arith)
    ensures
        2 * (p + q) * n == 2 * (p * n + q * n),
        c * (z * s) == z * (s * c),
{
}

/// The rotation matrix built from a unit axis and the sine and cosine of half
/// the angle is the matrix of the quaternion with the cosine as its real part
/// and the axis scaled by the sine as its vector part.
pub proof fn lemma_axis_angle_is_quaternion(axis: Vec3, s: int, c: int)
    ensures
        rotation3_spec(axis, s, c) == mat4_of_quat(
            Quat { a: c, i: axis.x * s, j: axis.y * s, k: axis.z * s },
        ),
{
    let x = axis.x;
    let y = axis.y;
    let z = axis.z;
    lemma_pair_product(x, s, x, s);
    lemma_pair_product(y, s, y, s);
    lemma_pair_product(z, s, z, s);
    lemma_pair_product(x, s, y, s);
    lemma_pair_product(x, s, z, s);
    lemma_pair_product(y, s, z, s);
    lemma_axis_angle_terms(y * y, z * z, s * s, c, z, s);
    lemma_axis_angle_terms(x * x, z * z, s * s, c, y, s);
    lemma_axis_angle_terms(x * x, y * y, s * s, c, x, s);
}

/// A rotation built from a unit axis and the sine and cosine of one angle is
/// exact: its transpose, which it caches, undoes it.
pub proof fn lemma_axis_angle_exact(axis: Vec3, s: int, c: int)
    requires
        axis.dot(axis) == 1,
        s * s + c * c == 1,
    ensures
        (Transform3Model {
            mat: rotation3_spec(axis, s, c),
            inv: rotation3_spec(axis, s, c).transpose(),
        }).is_exact(),
{
    let q = Quat { a: c, i: axis.x * s, j: axis.y * s, k: axis.z * s };
    lemma_axis_angle_is_quaternion(axis, s, c);
    lemma_pair_product(axis.x, s, axis.x, s);
    lemma_pair_product(axis.y, s, axis.y, s);
    lemma_pair_product(axis.z, s, axis.z, s);
    lemma_distribute23(axis.x * axis.x, axis.y * axis.y, axis.z * axis.z, s * s);
    lemma_mul_congruent(s * s, axis.dot(axis), 1);
    assert(q.is_unit());
    lemma_quat_matrix_exact(q);
}

/// A map without projective part sends every point to a point with `w` one,
/// so that nothing is lost in the division by `w`.
pub proof fn lemma_affine_keeps_w(m: Mat4, p: Vec3)
    requires
        m.is_affine(),
    ensures
        m.apply_point(p).w == 1,
{
    lemma_mul_congruent(p.x, m.m14, 0);
    lemma_mul_congruent(p.y, m.m24, 0);
    lemma_mul_congruent(p.z, m.m34, 0);
}

/// The matrices of rotations, translations and stretches have no projective
/// part.
pub proof fn lemma_builders_are_affine(q: Quat, axis: Vec3, s: int, c: int, v: Vec3)
    ensures
        mat4_of_quat(q).is_affine(),
        mat4_of_quat(q).transpose().is_affine(),
        rotation3_spec(axis, s, c).is_affine(),
        Mat4::translation(v).is_affine(),
        Mat4::scaling(v.x, v.y, v.z).is_affine(),
        Mat4::identity().is_affine(),
{
}

/// The product of two exact transforms is undone by its cached inverse, on
/// both sides, and that inverse is the product of the two inverses in the
/// opposite order.
pub proof fn lemma_product_undone3<T: Scalar, A, B, C>(
    a: Transform3<T, A, B>,
    b: Transform3<T, B, C>,
)
    requires
        a.is_exact(),
        b.is_exact(),
    ensures
        a@.compose(b@).inverse() == b@.inverse().compose(a@.inverse()),
        a@.compose(b@).mat.mul(a@.compose(b@).inverse().mat) == Mat4::identity(),
        a@.compose(b@).inverse().mat.mul(a@.compose(b@).mat) == Mat4::identity(),
{
    lemma_composition_exact3(a@, b@);
}

/// The product of two exact 2D transforms is undone by its cached inverse, on
/// both sides, and that inverse is the product of the two inverses in the
/// opposite order.
pub proof fn lemma_product_undone2<T: Scalar, A, B, C>(
    a: Transform2<T, A, B>,
    b: Transform2<T, B, C>,
)
    requires
        a.is_exact(),
        b.is_exact(),
    ensures
        a@.compose(b@).inverse() == b@.inverse().compose(a@.inverse()),
        a@.compose(b@).mat.mul(a@.compose(b@).inverse().mat) == Mat3x2::identity(),
        a@.compose(b@).inverse().mat.mul(a@.compose(b@).mat) == Mat3x2::identity(),
{
    lemma_composition_exact2(a@, b@);
}

/// A translation can be applied to every direction and every normal, whatever
/// its offset, and leaves them as they are: nothing can overflow.
pub proof fn lemma_translation_applies_to_vectors<T: Scalar, U>(t: Vec3, d: Vector3<T, U>)
    ensures
        apply_vector3_fits::<T>(Mat4::translation(t), d@),
        apply_transposed3_fits::<T>(Mat4::translation(t.neg()), d@),
        Mat4::translation(t).apply_vector(d@) == d@,
        Mat4::translation(t.neg()).apply_transposed(d@) == d@,
{
    T::lemma_unit_fits();
    d.x.lemma_val_fits();
    d.y.lemma_val_fits();
    d.z.lemma_val_fits();
    lemma_translation_keeps_vectors3(t, d@);
    lemma_translation_keeps_normals3(t, d@);
    let m = Mat4::translation(t);
    let n = Mat4::translation(t.neg());
    assert(d@.x * m.m11 == d@.x && d@.y * m.m21 == 0 && d@.z * m.m31 == 0);
    assert(d@.x * m.m12 == 0 && d@.y * m.m22 == d@.y && d@.z * m.m32 == 0);
    assert(d@.x * m.m13 == 0 && d@.y * m.m23 == 0 && d@.z * m.m33 == d@.z);
    assert(d@.x * n.m11 == d@.x && d@.y * n.m12 == 0 && d@.z * n.m13 == 0);
    assert(d@.x * n.m21 == 0 && d@.y * n.m22 == d@.y && d@.z * n.m23 == 0);
    assert(d@.x * n.m31 == 0 && d@.y * n.m32 == 0 && d@.z * n.m33 == d@.z);
}

/// Two translations can be composed whenever the sum of their offsets and its
/// negation are representable, and the composition is the translation by the
/// sum.
pub proof fn lemma_translations_compose<T: Scalar, U>(u: Vector3<T, U>, v: Vector3<T, U>)
    requires
        u@.neg().fits::<T>(),
        v@.neg().fits::<T>(),
        u@.add(v@).fits::<T>(),
        u@.add(v@).neg().fits::<T>(),
    ensures
        mat4_mul_fits::<T>(Mat4::translation(u@), Mat4::translation(v@)),
        mat4_mul_fits::<T>(Mat4::translation(v@.neg()), Mat4::translation(u@.neg())),
        Transform3Model::translation(u@).compose(Transform3Model::translation(v@))
            == Transform3Model::translation(u@.add(v@)),
{
    T::lemma_unit_fits();
    u.x.lemma_val_fits();
    u.y.lemma_val_fits();
    u.z.lemma_val_fits();
    v.x.lemma_val_fits();
    v.y.lemma_val_fits();
    v.z.lemma_val_fits();
    lemma_translations_add3(u@, v@);
}

} // verus!

//! Laws of the cross product, and of the view matrix built from the frame of
//! a camera: the eye goes to the origin, and for a forward and a right vector
//! of length one at right angles the matrix is a rigid motion that sends
//! right, up and forward to the first axis, the second axis and the opposite
//! of the third.
use vstd::prelude::*;
use crate::identities::{
    lemma_cross_product, lemma_distribute4x4, lemma_dot_product, lemma_pair_product,
};
use crate::model::{det3, lemma_mul_congruent, Vec3, Vec4};
use crate::transform3::{lemma_mul_negated, look_to_rh_spec};

verus! {

/// Whether `f` and `s` have length one and are at right angles.
pub open spec fn is_orthonormal_pair(f: Vec3, s: Vec3) -> bool {
    f.dot(f) == 1 && s.dot(s) == 1 && s.dot(f) == 0
}

/// The square of a difference and of a sum of three terms, written out.
proof fn lemma_squares(p: int, q: int, r: int)
    by (nonlinear_arith)
    ensures
        (p - q) * (p - q) == p * p - 2 * (p * q) + q * q,
        (p + q + r) * (p + q + r) == p * p + q * q + r * r + 2 * (p * q) + 2 * (p * r) + 2 * (q
            * r),
{
}

/// The squared length of a cross product is the product of the squared
/// lengths of its factors less the square of their dot product.
pub proof fn lemma_cross_length(a: Vec3, b: Vec3)
    ensures
        a.cross(b).dot(a.cross(b)) == a.dot(a) * b.dot(b) - a.dot(b) * a.dot(b),
{
    let (x, y, z) = (a.x, a.y, a.z);
    let (u, v, w) = (b.x, b.y, b.z);
    lemma_squares(y * w, z * v, 0);
    lemma_squares(z * u, x * w, 0);
    lemma_squares(x * v, y * u, 0);
    lemma_squares(x * u, y * v, z * w);
    lemma_distribute4x4(x * x, y * y, z * z, 0, u * u, v * v, w * w, 0);
    lemma_pair_product(y, w, y, w);
    lemma_pair_product(z, v, z, v);
    lemma_pair_product(y, w, z, v);
    lemma_pair_product(z, u, z, u);
    lemma_pair_product(x, w, x, w);
    lemma_pair_product(z, u, x, w);
    lemma_pair_product(x, v, x, v);
    lemma_pair_product(y, u, y, u);
    lemma_pair_product(x, v, y, u);
    lemma_pair_product(x, u, x, u);
    lemma_pair_product(y, v, y, v);
    lemma_pair_product(z, w, z, w);
    lemma_pair_product(x, u, y, v);
    lemma_pair_product(x, u, z, w);
    lemma_pair_product(y, v, z, w);
}

/// One coordinate of `a x (b x c)`, regrouped as the same coordinate of
/// `b * (a . c) - c * (a . b)`.
proof fn lemma_triple_cross_part(
    ax: int,
    ay: int,
    az: int,
    bx: int,
    by: int,
    bz: int,
    cx: int,
    cy: int,
    cz: int,
    ac: int,
    ab: int,
)
    requires
        ac == ax * cx + ay * cy + az * cz,
        ab == ax * bx + ay * by + az * bz,
    ensures
        ay * (bx * cy - by * cx) - az * (bz * cx - bx * cz) == bx * ac - cx * ab,
{
    assert(ay * (bx * cy - by * cx) == bx * (ay * cy) - cx * (ay * by)) by (nonlinear_arith);
    assert(az * (bz * cx - bx * cz) == cx * (az * bz) - bx * (az * cz)) by (nonlinear_arith);
    assert(bx * ac == bx * (ax * cx) + bx * (ay * cy) + bx * (az * cz)) by (nonlinear_arith)
        requires
            ac == ax * cx + ay * cy + az * cz,
    ;
    assert(cx * ab == cx * (ax * bx) + cx * (ay * by) + cx * (az * bz)) by (nonlinear_arith)
        requires
            ab == ax * bx + ay * by + az * bz,
    ;
    assert(bx * (ax * cx) == cx * (ax * bx)) by (nonlinear_arith);
}

/// The cross product of a vector with a cross product:
/// `a x (b x c) = b * (a . c) - c * (a . b)`.
pub proof fn lemma_triple_cross(a: Vec3, b: Vec3, c: Vec3)
    ensures
        a.cross(b.cross(c)) == b.scale(a.dot(c)).sub(c.scale(a.dot(b))),
{
    let ac = a.dot(c);
    let ab = a.dot(b);
    lemma_triple_cross_part(a.x, a.y, a.z, b.x, b.y, b.z, c.x, c.y, c.z, ac, ab);
    lemma_triple_cross_part(a.y, a.z, a.x, b.y, b.z, b.x, c.y, c.z, c.x, ac, ab);
    lemma_triple_cross_part(a.z, a.x, a.y, b.z, b.x, b.y, c.z, c.x, c.y, ac, ab);
    let l = a.cross(b.cross(c));
    let r = b.scale(ac).sub(c.scale(ab));
    assert(l.x == r.x);
    assert(l.y == r.y);
    assert(l.z == r.z);
}

/// The determinant of the 3x3 matrix with columns `s`, `u` and `-f` is the
/// dot product of `s` with the cross product of `f` and `u`.
proof fn lemma_det_of_columns(s: Vec3, u: Vec3, f: Vec3)
    ensures
        det3(s.x, u.x, -f.x, s.y, u.y, -f.y, s.z, u.z, -f.z) == s.dot(f.cross(u)),
{
    lemma_mul_negated(u.y, f.z);
    lemma_mul_negated(u.z, f.y);
    lemma_mul_congruent(s.x, u.y * (-f.z) - (-f.y) * u.z, f.y * u.z - f.z * u.y);
    assert(u.x * (s.y * (-f.z) - (-f.y) * s.z) == -(s.y * (f.z * u.x)) + s.z * (f.y * u.x))
        by (nonlinear_arith);
    assert((-f.x) * (s.y * u.z - u.y * s.z) == -(s.y * (f.x * u.z)) + s.z * (f.x * u.y))
        by (nonlinear_arith);
    assert(s.y * (f.z * u.x - f.x * u.z) == s.y * (f.z * u.x) - s.y * (f.x * u.z))
        by (nonlinear_arith);
    assert(s.z * (f.x * u.y - f.y * u.x) == s.z * (f.x * u.y) - s.z * (f.y * u.x))
        by (nonlinear_arith);
}

/// A 3x3 determinant whose last column is zero is zero.
proof fn lemma_empty_column(a: int, b: int, d: int, e: int, g: int, h: int)
    ensures
        det3(a, b, 0, d, e, 0, g, h, 0) == 0,
{
    assert(a * (e * 0 - 0 * h) == 0) by (nonlinear_arith);
    assert(b * (d * 0 - 0 * g) == 0) by (nonlinear_arith);
}

/// The view matrix is affine and takes the eye to the origin.
pub proof fn lemma_view_matrix_centres_eye(eye: Vec3, f: Vec3, s: Vec3)
    ensures
        look_to_rh_spec(eye, f, s).is_affine(),
        look_to_rh_spec(eye, f, s).apply_point(eye) == (Vec4 { x: 0, y: 0, z: 0, w: 1 }),
{
    lemma_mul_negated(eye.x, f.x);
    lemma_mul_negated(eye.y, f.y);
    lemma_mul_negated(eye.z, f.z);
}

/// For a forward vector `f` and a right vector `s` of length one at right
/// angles, the up vector `s x f` has length one and is at right angles to
/// both, so the three columns of the linear part of the view matrix are
/// orthonormal; the matrix has determinant one and sends `s` to the first
/// axis, the up vector to the second, and `f` to the opposite of the third:
/// the camera looks down the negative third axis.
pub proof fn lemma_view_matrix_is_rigid(eye: Vec3, f: Vec3, s: Vec3)
    requires
        is_orthonormal_pair(f, s),
    ensures
        is_orthonormal_pair(s.cross(f), s),
        is_orthonormal_pair(s.cross(f), f),
        look_to_rh_spec(eye, f, s).det() == 1,
        look_to_rh_spec(eye, f, s).apply_vector(s) == (Vec3 { x: 1, y: 0, z: 0 }),
        look_to_rh_spec(eye, f, s).apply_vector(s.cross(f)) == (Vec3 { x: 0, y: 1, z: 0 }),
        look_to_rh_spec(eye, f, s).apply_vector(f) == (Vec3 { x: 0, y: 0, z: -1 }),
{
    let m = look_to_rh_spec(eye, f, s);
    let u = s.cross(f);
    lemma_cross_product(s, f);
    lemma_dot_product(f, s);
    lemma_dot_product(u, s);
    lemma_dot_product(u, f);
    lemma_cross_length(s, f);
    lemma_mul_congruent(s.dot(s), f.dot(f), 1);
    lemma_mul_congruent(s.dot(f), s.dot(f), 0);
    assert(u.dot(u) == 1);
    lemma_mul_negated(s.x, f.x);
    lemma_mul_negated(s.y, f.y);
    lemma_mul_negated(s.z, f.z);
    lemma_mul_negated(u.x, f.x);
    lemma_mul_negated(u.y, f.y);
    lemma_mul_negated(u.z, f.z);
    lemma_mul_negated(f.x, f.x);
    lemma_mul_negated(f.y, f.y);
    lemma_mul_negated(f.z, f.z);
    assert(m.apply_vector(s) == (Vec3 { x: 1, y: 0, z: 0 }));
    assert(m.apply_vector(u) == (Vec3 { x: 0, y: 1, z: 0 }));
    assert(m.apply_vector(f) == (Vec3 { x: 0, y: 0, z: -1 }));
    lemma_triple_cross(f, s, f);
    lemma_mul_congruent(s.x, f.dot(f), 1);
    lemma_mul_congruent(s.y, f.dot(f), 1);
    lemma_mul_congruent(s.z, f.dot(f), 1);
    lemma_mul_congruent(f.x, f.dot(s), 0);
    lemma_mul_congruent(f.y, f.dot(s), 0);
    lemma_mul_congruent(f.z, f.dot(s), 0);
    assert(f.cross(u) == s);
    lemma_det_of_columns(s, u, f);
    let d = det3(m.m11, m.m12, m.m13, m.m21, m.m22, m.m23, m.m31, m.m32, m.m33);
    assert(d == 1);
    let d1 = det3(m.m12, m.m13, m.m14, m.m22, m.m23, m.m24, m.m32, m.m33, m.m34);
    let d2 = det3(m.m11, m.m13, m.m14, m.m21, m.m23, m.m24, m.m31, m.m33, m.m34);
    let d3 = det3(m.m11, m.m12, m.m14, m.m21, m.m22, m.m24, m.m31, m.m32, m.m34);
    lemma_empty_column(m.m12, m.m13, m.m22, m.m23, m.m32, m.m33);
    lemma_empty_column(m.m11, m.m13, m.m21, m.m23, m.m31, m.m33);
    lemma_empty_column(m.m11, m.m12, m.m21, m.m22, m.m31, m.m32);
    lemma_mul_congruent(m.m41, d1, 0);
    lemma_mul_congruent(m.m42, d2, 0);
    lemma_mul_congruent(m.m43, d3, 0);
    lemma_mul_congruent(d, m.m44, 1);
}

/// The triple product does not change when its three vectors change places
/// in a cycle.
pub proof fn lemma_triple_product_cycles(a: Vec3, b: Vec3, c: Vec3)
    ensures
        a.dot(b.cross(c)) == b.dot(c.cross(a)),
{
    assert(a.x * (b.y * c.z - b.z * c.y) == a.x * (b.y * c.z) - a.x * (b.z * c.y))
        by (nonlinear_arith);
    assert(a.y * (b.z * c.x - b.x * c.z) == a.y * (b.z * c.x) - a.y * (b.x * c.z))
        by (nonlinear_arith);
    assert(a.z * (b.x * c.y - b.y * c.x) == a.z * (b.x * c.y) - a.z * (b.y * c.x))
        by (nonlinear_arith);
    assert(b.x * (c.y * a.z - c.z * a.y) == a.z * (b.x * c.y) - a.y * (b.x * c.z))
        by (nonlinear_arith);
    assert(b.y * (c.z * a.x - c.x * a.z) == a.x * (b.y * c.z) - a.z * (b.y * c.x))
        by (nonlinear_arith);
    assert(b.z * (c.x * a.y - c.y * a.x) == a.y * (b.z * c.x) - a.x * (b.z * c.y))
        by (nonlinear_arith);
}

/// A sum of three products with a common last factor `k` inside each.
proof fn lemma_common_factor(x: int, y: int, z: int, u: int, v: int, w: int, k: int)
    ensures
        x * (u * k) + y * (v * k) + z * (w * k) == (x * u + y * v + z * w) * k,
{
    assert(x * (u * k) == (x * u) * k) by (nonlinear_arith);
    assert(y * (v * k) == (y * v) * k) by (nonlinear_arith);
    assert(z * (w * k) == (z * w) * k) by (nonlinear_arith);
    let p = x * u;
    let q = y * v;
    let r = z * w;
    assert((p + q + r) * k == p * k + q * k + r * k) by (nonlinear_arith);
}

/// Any vector `up` from which the right vector `s` was made, as the cross
/// product of forward and `up` divided by its length `k`, goes to a direction
/// in the plane of the second and third axes that points up: its first
/// coordinate is zero and its second is `k`.
pub proof fn lemma_view_matrix_keeps_up(eye: Vec3, f: Vec3, s: Vec3, up: Vec3, k: int)
    requires
        s.dot(s) == 1,
        k > 0,
        f.cross(up) == s.scale(k),
    ensures
        look_to_rh_spec(eye, f, s).apply_vector(up).x == 0,
        look_to_rh_spec(eye, f, s).apply_vector(up).y == k,
{
    let m = look_to_rh_spec(eye, f, s);
    lemma_cross_product(f, up);
    lemma_common_factor(up.x, up.y, up.z, s.x, s.y, s.z, k);
    let d = up.dot(s);
    assert(up.dot(s.scale(k)) == d * k);
    assert(d == 0) by (nonlinear_arith)
        requires
            d * k == 0,
            k > 0,
    ;
    lemma_triple_product_cycles(up, s, f);
    lemma_common_factor(s.x, s.y, s.z, s.x, s.y, s.z, k);
    lemma_mul_congruent(k, s.dot(s), 1);
    assert(s.dot(s.scale(k)) == k);
    assert(m.apply_vector(up).x == d);
    assert(m.apply_vector(up).y == up.dot(s.cross(f)));
}

} // verus!

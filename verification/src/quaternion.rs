//! Laws of quaternion algebra: the Hamilton product is associative, the
//! conjugate of a product is the product of the conjugates in reverse order,
//! a unit quaternion turns a vector as the product `q * v * conj(q)` does, and
//! the product of two unit quaternions turns a vector as the two do in turn.
//! The quaternion of three Euler angles is the product of three turns about
//! the axes; a turn about an axis leaves the axis in place; and the matrix of
//! a unit quaternion has determinant one.
use vstd::prelude::*;
use crate::identities::{
    lemma_associate, lemma_axis_angle_is_quaternion, lemma_distribute1x5, lemma_mul_commutes,
    lemma_norm_multiplicative, lemma_pair_product, lemma_quaternion_matrix_agrees,
    lemma_scaled_axis_norm, lemma_unit_rows,
};
use crate::model::{det3, lemma_mul_congruent, Quat, Vec3};
use crate::transform3::{mat4_of_quat, rotation3_spec};

verus! {

/// A difference `t1 - t2 - t3 - t4` times a factor, on either side, written out.
proof fn lemma_real_part_times(t1: int, t2: int, t3: int, t4: int, n: int)
    by (nonlinear_arith)
    ensures
        (t1 - t2 - t3 - t4) * n == t1 * n - t2 * n - t3 * n - t4 * n,
        n * (t1 - t2 - t3 - t4) == n * t1 - n * t2 - n * t3 - n * t4,
{
}

/// A sum `t1 + t2 + t3 - t4` times a factor, on either side, written out.
proof fn lemma_imaginary_part_times(t1: int, t2: int, t3: int, t4: int, n: int)
    by (nonlinear_arith)
    ensures
        (t1 + t2 + t3 - t4) * n == t1 * n + t2 * n + t3 * n - t4 * n,
        n * (t1 + t2 + t3 - t4) == n * t1 + n * t2 + n * t3 - n * t4,
{
}

/// The real part of a product of three quaternions does not depend on
/// how the factors are grouped.
proof fn lemma_grouping_real(x: Quat, y: Quat, z: Quat)
    ensures
        x.mul(y).mul(z).a == x.mul(y.mul(z)).a,
{
    lemma_real_part_times(x.a * y.a, x.i * y.i, x.j * y.j, x.k * y.k, z.a);
    lemma_associate(x.a, y.a, z.a);
    lemma_associate(x.i, y.i, z.a);
    lemma_associate(x.j, y.j, z.a);
    lemma_associate(x.k, y.k, z.a);
    lemma_imaginary_part_times(x.i * y.a, x.a * y.i, x.j * y.k, x.k * y.j, z.i);
    lemma_associate(x.i, y.a, z.i);
    lemma_associate(x.a, y.i, z.i);
    lemma_associate(x.j, y.k, z.i);
    lemma_associate(x.k, y.j, z.i);
    lemma_imaginary_part_times(x.j * y.a, x.a * y.j, x.k * y.i, x.i * y.k, z.j);
    lemma_associate(x.j, y.a, z.j);
    lemma_associate(x.a, y.j, z.j);
    lemma_associate(x.k, y.i, z.j);
    lemma_associate(x.i, y.k, z.j);
    lemma_imaginary_part_times(x.k * y.a, x.a * y.k, x.i * y.j, x.j * y.i, z.k);
    lemma_associate(x.k, y.a, z.k);
    lemma_associate(x.a, y.k, z.k);
    lemma_associate(x.i, y.j, z.k);
    lemma_associate(x.j, y.i, z.k);
    lemma_real_part_times(y.a * z.a, y.i * z.i, y.j * z.j, y.k * z.k, x.a);
    lemma_imaginary_part_times(y.i * z.a, y.a * z.i, y.j * z.k, y.k * z.j, x.i);
    lemma_imaginary_part_times(y.j * z.a, y.a * z.j, y.k * z.i, y.i * z.k, x.j);
    lemma_imaginary_part_times(y.k * z.a, y.a * z.k, y.i * z.j, y.j * z.i, x.k);
}

/// The first part of a product of three quaternions does not depend on
/// how the factors are grouped.
proof fn lemma_grouping_first(x: Quat, y: Quat, z: Quat)
    ensures
        x.mul(y).mul(z).i == x.mul(y.mul(z)).i,
{
    lemma_imaginary_part_times(x.i * y.a, x.a * y.i, x.j * y.k, x.k * y.j, z.a);
    lemma_associate(x.i, y.a, z.a);
    lemma_associate(x.a, y.i, z.a);
    lemma_associate(x.j, y.k, z.a);
    lemma_associate(x.k, y.j, z.a);
    lemma_real_part_times(x.a * y.a, x.i * y.i, x.j * y.j, x.k * y.k, z.i);
    lemma_associate(x.a, y.a, z.i);
    lemma_associate(x.i, y.i, z.i);
    lemma_associate(x.j, y.j, z.i);
    lemma_associate(x.k, y.k, z.i);
    lemma_imaginary_part_times(x.j * y.a, x.a * y.j, x.k * y.i, x.i * y.k, z.k);
    lemma_associate(x.j, y.a, z.k);
    lemma_associate(x.a, y.j, z.k);
    lemma_associate(x.k, y.i, z.k);
    lemma_associate(x.i, y.k, z.k);
    lemma_imaginary_part_times(x.k * y.a, x.a * y.k, x.i * y.j, x.j * y.i, z.j);
    lemma_associate(x.k, y.a, z.j);
    lemma_associate(x.a, y.k, z.j);
    lemma_associate(x.i, y.j, z.j);
    lemma_associate(x.j, y.i, z.j);
    lemma_real_part_times(y.a * z.a, y.i * z.i, y.j * z.j, y.k * z.k, x.i);
    lemma_imaginary_part_times(y.i * z.a, y.a * z.i, y.j * z.k, y.k * z.j, x.a);
    lemma_imaginary_part_times(y.k * z.a, y.a * z.k, y.i * z.j, y.j * z.i, x.j);
    lemma_imaginary_part_times(y.j * z.a, y.a * z.j, y.k * z.i, y.i * z.k, x.k);
}

/// The second part of a product of three quaternions does not depend on
/// how the factors are grouped.
proof fn lemma_grouping_second(x: Quat, y: Quat, z: Quat)
    ensures
        x.mul(y).mul(z).j == x.mul(y.mul(z)).j,
{
    lemma_imaginary_part_times(x.j * y.a, x.a * y.j, x.k * y.i, x.i * y.k, z.a);
    lemma_associate(x.j, y.a, z.a);
    lemma_associate(x.a, y.j, z.a);
    lemma_associate(x.k, y.i, z.a);
    lemma_associate(x.i, y.k, z.a);
    lemma_real_part_times(x.a * y.a, x.i * y.i, x.j * y.j, x.k * y.k, z.j);
    lemma_associate(x.a, y.a, z.j);
    lemma_associate(x.i, y.i, z.j);
    lemma_associate(x.j, y.j, z.j);
    lemma_associate(x.k, y.k, z.j);
    lemma_imaginary_part_times(x.k * y.a, x.a * y.k, x.i * y.j, x.j * y.i, z.i);
    lemma_associate(x.k, y.a, z.i);
    lemma_associate(x.a, y.k, z.i);
    lemma_associate(x.i, y.j, z.i);
    lemma_associate(x.j, y.i, z.i);
    lemma_imaginary_part_times(x.i * y.a, x.a * y.i, x.j * y.k, x.k * y.j, z.k);
    lemma_associate(x.i, y.a, z.k);
    lemma_associate(x.a, y.i, z.k);
    lemma_associate(x.j, y.k, z.k);
    lemma_associate(x.k, y.j, z.k);
    lemma_real_part_times(y.a * z.a, y.i * z.i, y.j * z.j, y.k * z.k, x.j);
    lemma_imaginary_part_times(y.j * z.a, y.a * z.j, y.k * z.i, y.i * z.k, x.a);
    lemma_imaginary_part_times(y.i * z.a, y.a * z.i, y.j * z.k, y.k * z.j, x.k);
    lemma_imaginary_part_times(y.k * z.a, y.a * z.k, y.i * z.j, y.j * z.i, x.i);
}

/// The third part of a product of three quaternions does not depend on
/// how the factors are grouped.
proof fn lemma_grouping_third(x: Quat, y: Quat, z: Quat)
    ensures
        x.mul(y).mul(z).k == x.mul(y.mul(z)).k,
{
    lemma_imaginary_part_times(x.k * y.a, x.a * y.k, x.i * y.j, x.j * y.i, z.a);
    lemma_associate(x.k, y.a, z.a);
    lemma_associate(x.a, y.k, z.a);
    lemma_associate(x.i, y.j, z.a);
    lemma_associate(x.j, y.i, z.a);
    lemma_real_part_times(x.a * y.a, x.i * y.i, x.j * y.j, x.k * y.k, z.k);
    lemma_associate(x.a, y.a, z.k);
    lemma_associate(x.i, y.i, z.k);
    lemma_associate(x.j, y.j, z.k);
    lemma_associate(x.k, y.k, z.k);
    lemma_imaginary_part_times(x.i * y.a, x.a * y.i, x.j * y.k, x.k * y.j, z.j);
    lemma_associate(x.i, y.a, z.j);
    lemma_associate(x.a, y.i, z.j);
    lemma_associate(x.j, y.k, z.j);
    lemma_associate(x.k, y.j, z.j);
    lemma_imaginary_part_times(x.j * y.a, x.a * y.j, x.k * y.i, x.i * y.k, z.i);
    lemma_associate(x.j, y.a, z.i);
    lemma_associate(x.a, y.j, z.i);
    lemma_associate(x.k, y.i, z.i);
    lemma_associate(x.i, y.k, z.i);
    lemma_real_part_times(y.a * z.a, y.i * z.i, y.j * z.j, y.k * z.k, x.k);
    lemma_imaginary_part_times(y.k * z.a, y.a * z.k, y.i * z.j, y.j * z.i, x.a);
    lemma_imaginary_part_times(y.j * z.a, y.a * z.j, y.k * z.i, y.i * z.k, x.i);
    lemma_imaginary_part_times(y.i * z.a, y.a * z.i, y.j * z.k, y.k * z.j, x.j);
}

/// The Hamilton product is associative.
pub proof fn lemma_product_associative(x: Quat, y: Quat, z: Quat)
    ensures
        x.mul(y).mul(z) == x.mul(y.mul(z)),
{
    lemma_grouping_real(x, y, z);
    lemma_grouping_first(x, y, z);
    lemma_grouping_second(x, y, z);
    lemma_grouping_third(x, y, z);
}

/// Products of two numbers and of their negations.
proof fn lemma_signed_products(u: int, v: int)
    by (nonlinear_arith)
    ensures
        (-u) * (-v) == v * u,
        (-u) * v == -(v * u),
        u * (-v) == -(v * u),
        u * v == v * u,
{
}

/// The conjugate of a product is the product of the conjugates in reverse
/// order.
pub proof fn lemma_conjugate_of_product(x: Quat, y: Quat)
    ensures
        x.mul(y).conjugate() == y.conjugate().mul(x.conjugate()),
{
    lemma_signed_products(y.a, x.a);
    lemma_signed_products(y.a, x.i);
    lemma_signed_products(y.a, x.j);
    lemma_signed_products(y.a, x.k);
    lemma_signed_products(y.i, x.a);
    lemma_signed_products(y.i, x.i);
    lemma_signed_products(y.i, x.j);
    lemma_signed_products(y.i, x.k);
    lemma_signed_products(y.j, x.a);
    lemma_signed_products(y.j, x.i);
    lemma_signed_products(y.j, x.j);
    lemma_signed_products(y.j, x.k);
    lemma_signed_products(y.k, x.a);
    lemma_signed_products(y.k, x.i);
    lemma_signed_products(y.k, x.j);
    lemma_signed_products(y.k, x.k);
}

/// A sum of three terms, the last or all of them taken away, times a factor.
proof fn lemma_three_terms_times(p: int, q: int, r: int, n: int)
    by (nonlinear_arith)
    ensures
        (p + q - r) * n == p * n + q * n - r * n,
        (0 - p - q - r) * n == 0 - p * n - q * n - r * n,
{
}

/// A product of three factors, regrouped and reordered, and with its last
/// factor negated.
proof fn lemma_monomial(x: int, y: int, z: int)
    by (nonlinear_arith)
    ensures
        (x * y) * z == z * (x * y),
        (x * y) * z == x * (z * y),
        (x * y) * z == (x * z) * y,
        (x * y) * (-z) == -((x * y) * z),
{
}

/// One part of the product `q * v * conj(q)` for a unit quaternion
/// `q = (a, i, j, k)` and a vector `v = (x, y, z)`, where `(ta, ti, tj, tk)` is
/// `q * v`: the real part is zero, and the first part of the vector part is the
/// first coordinate of `v` turned by `q`.
proof fn lemma_sandwich_part(
    a: int,
    i: int,
    j: int,
    k: int,
    x: int,
    y: int,
    z: int,
    ta: int,
    ti: int,
    tj: int,
    tk: int,
)
    requires
        a * a + i * i + j * j + k * k == 1,
        ta == 0 - i * x - j * y - k * z,
        ti == a * x + j * z - k * y,
        tj == a * y + k * x - i * z,
        tk == a * z + i * y - j * x,
    ensures
        ta * a - ti * (-i) - tj * (-j) - tk * (-k) == 0,
        ti * a + ta * (-i) + tj * (-k) - tk * (-j) == x + a * ((j * z - k * y) * 2) + j * ((i * y
            - j * x) * 2) - k * ((k * x - i * z) * 2),
{
    lemma_three_terms_times(i * x, j * y, k * z, a);
    lemma_three_terms_times(i * x, j * y, k * z, -i);
    lemma_three_terms_times(a * x, j * z, k * y, a);
    lemma_three_terms_times(a * x, j * z, k * y, -i);
    lemma_three_terms_times(a * y, k * x, i * z, -j);
    lemma_three_terms_times(a * y, k * x, i * z, -k);
    lemma_three_terms_times(a * z, i * y, j * x, -k);
    lemma_three_terms_times(a * z, i * y, j * x, -j);
    lemma_monomial(i, x, a);
    lemma_monomial(j, y, a);
    lemma_monomial(k, z, a);
    lemma_monomial(a, x, i);
    lemma_monomial(j, z, i);
    lemma_monomial(k, y, i);
    lemma_monomial(a, y, j);
    lemma_monomial(k, x, j);
    lemma_monomial(i, z, j);
    lemma_monomial(a, z, k);
    lemma_monomial(i, y, k);
    lemma_monomial(j, x, k);
    lemma_monomial(a, x, a);
    lemma_monomial(j, z, a);
    lemma_monomial(k, y, a);
    lemma_monomial(i, x, i);
    lemma_monomial(j, y, i);
    lemma_monomial(k, z, i);
    lemma_monomial(a, y, k);
    lemma_monomial(k, x, k);
    lemma_monomial(i, z, k);
    lemma_monomial(a, z, j);
    lemma_monomial(i, y, j);
    lemma_monomial(j, x, j);
    assert(ta * a == -(a * (i * x)) - a * (j * y) - a * (k * z));
    assert(ti * (-i) == -(a * (i * x)) - i * (j * z) + i * (k * y));
    assert(tj * (-j) == -(a * (j * y)) - j * (k * x) + i * (j * z));
    assert(tk * (-k) == -(a * (k * z)) - i * (k * y) + j * (k * x));
    assert(ti * a == (a * a) * x + a * (j * z) - a * (k * y));
    assert(ta * (-i) == (i * i) * x + i * (j * y) + i * (k * z));
    assert(tj * (-k) == -(a * (k * y)) - (k * k) * x + i * (k * z));
    assert(tk * (-j) == -(a * (j * z)) - i * (j * y) + (j * j) * x);
    assert(a * ((j * z - k * y) * 2) == 2 * (a * (j * z)) - 2 * (a * (k * y)))
        by (nonlinear_arith);
    assert(j * ((i * y - j * x) * 2) == 2 * (i * (j * y)) - 2 * ((j * j) * x))
        by (nonlinear_arith);
    assert(k * ((k * x - i * z) * 2) == 2 * ((k * k) * x) - 2 * (i * (k * z)))
        by (nonlinear_arith);
    assert((a * a + i * i + j * j + k * k) * x == (a * a) * x + (i * i) * x + (j * j) * x + (k
        * k) * x) by (nonlinear_arith);
    lemma_mul_congruent(x, a * a + i * i + j * j + k * k, 1);
}

/// A unit quaternion `q` turns a vector `v` as the product `q * v * conj(q)`
/// does, with `v` taken as a quaternion without real part.
pub proof fn lemma_rotate_is_sandwich(q: Quat, v: Vec3)
    requires
        q.is_unit(),
    ensures
        q.mul(Quat::of_vector(v)).mul(q.conjugate()) == Quat::of_vector(q.rotate(v)),
{
    let t = q.mul(Quat::of_vector(v));
    let r = t.mul(q.conjugate());
    let c = q.vector_part().cross(v).scale(2);
    assert(c.x == (q.j * v.z - q.k * v.y) * 2);
    assert(c.y == (q.k * v.x - q.i * v.z) * 2);
    assert(c.z == (q.i * v.y - q.j * v.x) * 2);
    lemma_sandwich_part(q.a, q.i, q.j, q.k, v.x, v.y, v.z, t.a, t.i, t.j, t.k);
    lemma_sandwich_part(q.a, q.j, q.k, q.i, v.y, v.z, v.x, t.a, t.j, t.k, t.i);
    lemma_sandwich_part(q.a, q.k, q.i, q.j, v.z, v.x, v.y, t.a, t.k, t.i, t.j);
    assert(r.a == 0);
    assert(r.i == q.rotate(v).x);
    assert(r.j == q.rotate(v).y);
    assert(r.k == q.rotate(v).z);
}

/// The product of two unit quaternions turns a vector as the two do in turn,
/// the right factor first: `second * first` applies `first`, then `second`.
pub proof fn lemma_product_rotates_in_turn(first: Quat, second: Quat, v: Vec3)
    requires
        first.is_unit(),
        second.is_unit(),
    ensures
        second.mul(first).is_unit(),
        second.mul(first).rotate(v) == second.rotate(first.rotate(v)),
{
    let q = second.mul(first);
    let p = Quat::of_vector(v);
    lemma_norm_multiplicative(second, first);
    lemma_mul_congruent(second.norm_squared(), first.norm_squared(), 1);
    assert(q.is_unit());
    lemma_rotate_is_sandwich(q, v);
    lemma_conjugate_of_product(second, first);
    lemma_product_associative(q.mul(p), first.conjugate(), second.conjugate());
    lemma_product_associative(second, first, p);
    lemma_product_associative(second, first.mul(p), first.conjugate());
    lemma_rotate_is_sandwich(first, v);
    lemma_rotate_is_sandwich(second, first.rotate(v));
    let inner = Quat::of_vector(first.rotate(v));
    assert(q.mul(p).mul(q.conjugate()) == q.mul(p).mul(first.conjugate()).mul(
        second.conjugate(),
    ));
    assert(q.mul(p).mul(first.conjugate()) == second.mul(inner));
    assert(Quat::of_vector(q.rotate(v)) == Quat::of_vector(second.rotate(first.rotate(v))));
}

/// A product of three factors with the last two exchanged.
proof fn lemma_exchange_last(x: int, y: int, z: int)
    by (nonlinear_arith)
    ensures
        (x * y) * z == (x * z) * y,
        (-(x * y)) * z == -((x * z) * y),
{
}

/// The quaternion of three Euler angles is the product of the quaternions of
/// a yaw about the third axis, a pitch about the second and a roll about the
/// first, so it applies the roll first and the yaw last; its squared norm is
/// the product of the three sums of squares, and it is a unit quaternion when
/// each sine and cosine pair has squares that add up to one.
pub proof fn lemma_euler_is_product(sr: int, cr: int, sp: int, cp: int, sy: int, cy: int)
    ensures
        Quat::from_euler_sin_cos(sr, cr, sp, cp, sy, cy) == (Quat { a: cy, i: 0, j: 0, k: sy }).mul(
            Quat { a: cp, i: 0, j: sp, k: 0 },
        ).mul(Quat { a: cr, i: sr, j: 0, k: 0 }),
        Quat::from_euler_sin_cos(sr, cr, sp, cp, sy, cy).norm_squared() == (cy * cy + sy * sy) * (cp
            * cp + sp * sp) * (cr * cr + sr * sr),
        sr * sr + cr * cr == 1 && sp * sp + cp * cp == 1 && sy * sy + cy * cy == 1
            ==> Quat::from_euler_sin_cos(sr, cr, sp, cp, sy, cy).is_unit(),
{
    let yaw = Quat { a: cy, i: 0, j: 0, k: sy };
    let pitch = Quat { a: cp, i: 0, j: sp, k: 0 };
    let roll = Quat { a: cr, i: sr, j: 0, k: 0 };
    let yp = yaw.mul(pitch);
    let e = yp.mul(roll);
    assert(yp.a == cy * cp);
    assert(yp.i == -(sy * sp));
    assert(yp.j == cy * sp);
    assert(yp.k == sy * cp);
    lemma_exchange_last(cy, cp, cr);
    lemma_exchange_last(sy, sp, sr);
    lemma_exchange_last(sy, sp, cr);
    lemma_exchange_last(cy, cp, sr);
    lemma_exchange_last(cy, sp, cr);
    lemma_exchange_last(sy, cp, sr);
    lemma_exchange_last(sy, cp, cr);
    lemma_exchange_last(cy, sp, sr);
    assert(e.a == cy * cr * cp + sy * sr * sp);
    assert(e.i == cy * sr * cp - sy * cr * sp);
    assert(e.j == cy * cr * sp + sy * sr * cp);
    assert(e.k == sy * cr * cp - cy * sr * sp);
    lemma_norm_multiplicative(yp, roll);
    lemma_norm_multiplicative(yaw, pitch);
    assert(yaw.norm_squared() == cy * cy + sy * sy);
    assert(pitch.norm_squared() == cp * cp + sp * sp);
    assert(roll.norm_squared() == cr * cr + sr * sr);
    if sr * sr + cr * cr == 1 && sp * sp + cp * cp == 1 && sy * sy + cy * cy == 1 {
        assert(yp.norm_squared() == 1) by (nonlinear_arith)
            requires
                yp.norm_squared() == yaw.norm_squared() * pitch.norm_squared(),
                yaw.norm_squared() == 1,
                pitch.norm_squared() == 1,
        ;
        assert(e.norm_squared() == 1) by (nonlinear_arith)
            requires
                e.norm_squared() == yp.norm_squared() * roll.norm_squared(),
                yp.norm_squared() == 1,
                roll.norm_squared() == 1,
        ;
    }
}

/// A quaternion whose vector part is a multiple of a vector leaves that vector
/// in place.
pub proof fn lemma_axis_stays(axis: Vec3, s: int, c: int)
    ensures
        (Quat { a: c, i: axis.x * s, j: axis.y * s, k: axis.z * s }).rotate(axis) == axis,
        rotation3_spec(axis, s, c).apply_vector(axis) == axis,
{
    let q = Quat { a: c, i: axis.x * s, j: axis.y * s, k: axis.z * s };
    let w = q.vector_part().cross(axis);
    assert((axis.y * s) * axis.z == (axis.z * s) * axis.y) by (nonlinear_arith);
    assert((axis.z * s) * axis.x == (axis.x * s) * axis.z) by (nonlinear_arith);
    assert((axis.x * s) * axis.y == (axis.y * s) * axis.x) by (nonlinear_arith);
    assert(w == Vec3::zero());
    let d = w.scale(2);
    assert(d == Vec3::zero());
    assert(q.rotate(axis) == axis);
    lemma_axis_angle_is_quaternion(axis, s, c);
    lemma_quaternion_matrix_agrees(q, axis);
}

/// Products of the shapes that the entries of a quaternion's matrix take.
proof fn lemma_entry_pairs(p: int, q: int, r: int, s: int, u: int, v: int)
    by (nonlinear_arith)
    ensures
        (1 - 2 * u) * (1 - 2 * v) == 1 - 2 * u - 2 * v + 4 * (u * v),
        (2 * (p + q)) * (2 * (p - q)) == 4 * (p * p) - 4 * (q * q),
        (2 * (p + q)) * (2 * (r + s)) == 4 * (p * r) + 4 * (p * s) + 4 * (q * r) + 4 * (q * s),
        (2 * (p - q)) * (2 * (r - s)) == 4 * (p * r) - 4 * (p * s) - 4 * (q * r) + 4 * (q * s),
        (2 * (p - q)) * (1 - 2 * v) == 2 * p - 2 * q - 4 * (p * v) + 4 * (q * v),
        (1 - 2 * u) * (2 * (p + q)) == 2 * p + 2 * q - 4 * (u * p) - 4 * (u * q),
{
}

/// A sum of two terms times a term and times a sum of two, written out.
proof fn lemma_distribute2(w: int, x: int, y: int, z: int)
    by (nonlinear_arith)
    ensures
        (w + x) * (y + z) == w * y + w * z + x * y + x * z,
        (w + x) * y == w * y + x * y,
        y * (w + x) == y * w + y * x,
{
}

/// The minor of the first entry of a quaternion's matrix exceeds that entry
/// by a multiple of the excess of the squared norm over one.
proof fn lemma_first_minor(a: int, i: int, j: int, k: int)
    ensures
        (1 - 2 * (i * i + k * k)) * (1 - 2 * (i * i + j * j)) - (2 * (j * k + a * i)) * (2 * (j * k
            - a * i)) == 1 - 2 * (j * j + k * k) + 4 * ((i * i) * (a * a + i * i + j * j + k * k
            - 1)),
{
    lemma_entry_pairs(j * k, a * i, 0, 0, i * i + k * k, i * i + j * j);
    lemma_distribute2(i * i, k * k, i * i, j * j);
    lemma_pair_product(j, k, j, k);
    lemma_pair_product(a, i, a, i);
    lemma_distribute1x5(i * i, a * a, i * i, j * j, k * k, 1);
    lemma_mul_commutes(k * k, i * i);
    lemma_mul_commutes(k * k, j * j);
    lemma_mul_commutes(a * a, i * i);
    lemma_mul_commutes(i * i, 1);
}

/// The minor of the second entry of a quaternion's matrix, negated, exceeds
/// that entry by a multiple of the excess of the squared norm over one.
proof fn lemma_second_minor(a: int, i: int, j: int, k: int)
    ensures
        (2 * (j * k + a * i)) * (2 * (i * k + a * j)) - (2 * (i * j - a * k)) * (1 - 2 * (i * i + j
            * j)) == 2 * (i * j + a * k) + 4 * ((i * j) * (a * a + i * i + j * j + k * k - 1)),
{
    lemma_entry_pairs(j * k, a * i, i * k, a * j, 0, 0);
    lemma_entry_pairs(i * j, a * k, 0, 0, 0, i * i + j * j);
    lemma_distribute2(i * i, j * j, i * j, 0);
    lemma_distribute2(i * i, j * j, a * k, 0);
    lemma_pair_product(j, k, i, k);
    lemma_pair_product(a, k, j, j);
    lemma_mul_commutes(a * j, j * k);
    lemma_pair_product(a, k, i, i);
    lemma_pair_product(a, a, i, j);
    lemma_distribute1x5(i * j, a * a, i * i, j * j, k * k, 1);
    lemma_mul_commutes(i * j, a * a);
    lemma_mul_commutes(i * j, 1);
}

/// The minor of the third entry of a quaternion's matrix exceeds that entry
/// by a multiple of the excess of the squared norm over one.
proof fn lemma_third_minor(a: int, i: int, j: int, k: int)
    ensures
        (2 * (i * j - a * k)) * (2 * (j * k - a * i)) - (1 - 2 * (i * i + k * k)) * (2 * (i * k + a
            * j)) == 2 * (i * k - a * j) + 4 * ((i * k) * (a * a + i * i + j * j + k * k - 1)),
{
    lemma_entry_pairs(i * j, a * k, j * k, a * i, 0, 0);
    lemma_entry_pairs(i * k, a * j, 0, 0, i * i + k * k, 0);
    lemma_distribute2(i * i, k * k, i * k, 0);
    lemma_distribute2(i * i, k * k, a * j, 0);
    lemma_pair_product(i, k, j, j);
    lemma_pair_product(i, i, a, j);
    lemma_mul_commutes(a * i, i * j);
    lemma_pair_product(k, k, a, j);
    lemma_pair_product(a, a, k, i);
    lemma_mul_commutes(k, i);
    lemma_mul_commutes(a * a, i * k);
    lemma_mul_commutes(i * i, i * k);
    lemma_mul_commutes(k * k, i * k);
    lemma_distribute1x5(i * k, a * a, i * i, j * j, k * k, 1);
    lemma_mul_commutes(i * k, 1);
}

/// The matrix of a unit quaternion has determinant one: it keeps volume and
/// handedness.
pub proof fn lemma_quat_matrix_det(q: Quat)
    requires
        q.is_unit(),
    ensures
        mat4_of_quat(q).det() == 1,
{
    let m = mat4_of_quat(q);
    let a = q.a;
    let i = q.i;
    let j = q.j;
    let k = q.k;
    let n = a * a + i * i + j * j + k * k - 1;
    assert(n == 0);
    lemma_first_minor(a, i, j, k);
    lemma_second_minor(a, i, j, k);
    lemma_third_minor(a, i, j, k);
    lemma_mul_congruent(i * i, n, 0);
    lemma_mul_congruent(i * j, n, 0);
    lemma_mul_congruent(i * k, n, 0);
    let c1 = m.m22 * m.m33 - m.m23 * m.m32;
    let c2 = m.m21 * m.m33 - m.m23 * m.m31;
    let c3 = m.m21 * m.m32 - m.m22 * m.m31;
    assert(c1 == m.m11);
    assert(c2 == -m.m12);
    assert(c3 == m.m13);
    lemma_mul_congruent(m.m11, c1, m.m11);
    lemma_mul_congruent(m.m12, c2, -m.m12);
    lemma_mul_congruent(m.m13, c3, m.m13);
    lemma_signed_products(m.m12, m.m12);
    lemma_unit_rows(a, i, j, k);
    let d = det3(m.m11, m.m12, m.m13, m.m21, m.m22, m.m23, m.m31, m.m32, m.m33);
    assert(d == 1);
    lemma_mul_congruent(det3(m.m12, m.m13, m.m14, m.m22, m.m23, m.m24, m.m32, m.m33, m.m34), m.m41, 0);
    lemma_mul_congruent(det3(m.m11, m.m13, m.m14, m.m21, m.m23, m.m24, m.m31, m.m33, m.m34), m.m42, 0);
    lemma_mul_congruent(det3(m.m11, m.m12, m.m14, m.m21, m.m22, m.m24, m.m31, m.m32, m.m34), m.m43, 0);
    lemma_mul_congruent(d, m.m44, 1);
}

/// The matrix of a rotation about a unit axis, from a sine and cosine whose
/// squares add up to one, leaves the axis in place and has determinant one.
pub proof fn lemma_axis_angle_is_rotation(axis: Vec3, s: int, c: int)
    requires
        axis.dot(axis) == 1,
        s * s + c * c == 1,
    ensures
        rotation3_spec(axis, s, c).apply_vector(axis) == axis,
        rotation3_spec(axis, s, c).det() == 1,
{
    lemma_axis_stays(axis, s, c);
    lemma_axis_angle_is_quaternion(axis, s, c);
    lemma_scaled_axis_norm(axis, s, c);
    lemma_quat_matrix_det(Quat { a: c, i: axis.x * s, j: axis.y * s, k: axis.z * s });
}

} // verus!

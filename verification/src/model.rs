//! Mathematical models: integer vectors and matrices over which every
//! contract of the library is stated.
use vstd::prelude::*;

verus! {

/// A pair of integers: the model of every two-component value.
pub struct Vec2 {
    pub x: int,
    pub y: int,
}

/// A triple of integers: the model of every three-component value.
pub struct Vec3 {
    pub x: int,
    pub y: int,
    pub z: int,
}

/// Four integers: the model of a homogeneous vector or a quaternion.
pub struct Vec4 {
    pub x: int,
    pub y: int,
    pub z: int,
    pub w: int,
}

/// A 2D affine map acting on row vectors: `(x, y) -> (x, y) * [[m11, m12],
/// [m21, m22]] + (m31, m32)`.
pub struct Mat3x2 {
    pub m11: int,
    pub m12: int,
    pub m21: int,
    pub m22: int,
    pub m31: int,
    pub m32: int,
}

/// A 4x4 matrix acting on row vectors: `p -> p * M`.
pub struct Mat4 {
    pub m11: int,
    pub m12: int,
    pub m13: int,
    pub m14: int,
    pub m21: int,
    pub m22: int,
    pub m23: int,
    pub m24: int,
    pub m31: int,
    pub m32: int,
    pub m33: int,
    pub m34: int,
    pub m41: int,
    pub m42: int,
    pub m43: int,
    pub m44: int,
}

impl Vec2 {
    pub open spec fn zero() -> Vec2 {
        Vec2 { x: 0, y: 0 }
    }

    pub open spec fn splat(v: int) -> Vec2 {
        Vec2 { x: v, y: v }
    }

    pub open spec fn add(self, o: Vec2) -> Vec2 {
        Vec2 { x: self.x + o.x, y: self.y + o.y }
    }

    pub open spec fn sub(self, o: Vec2) -> Vec2 {
        Vec2 { x: self.x - o.x, y: self.y - o.y }
    }

    pub open spec fn neg(self) -> Vec2 {
        Vec2 { x: -self.x, y: -self.y }
    }

    pub open spec fn scale(self, k: int) -> Vec2 {
        Vec2 { x: self.x * k, y: self.y * k }
    }

    /// Componentwise quotient by `k`, rounded toward zero.
    pub open spec fn div(self, k: int) -> Vec2 {
        Vec2 { x: crate::num::trunc_div(self.x, k), y: crate::num::trunc_div(self.y, k) }
    }

    pub open spec fn component_mul(self, o: Vec2) -> Vec2 {
        Vec2 { x: self.x * o.x, y: self.y * o.y }
    }

    pub open spec fn component_div(self, o: Vec2) -> Vec2 {
        Vec2 { x: crate::num::trunc_div(self.x, o.x), y: crate::num::trunc_div(self.y, o.y) }
    }

    pub open spec fn dot(self, o: Vec2) -> int {
        self.x * o.x + self.y * o.y
    }

    pub open spec fn cross(self, o: Vec2) -> int {
        self.x * o.y - self.y * o.x
    }

    pub open spec fn min(self, o: Vec2) -> Vec2 {
        Vec2 {
            x: if self.x <= o.x { self.x } else { o.x },
            y: if self.y <= o.y { self.y } else { o.y },
        }
    }

    pub open spec fn max(self, o: Vec2) -> Vec2 {
        Vec2 {
            x: if self.x >= o.x { self.x } else { o.x },
            y: if self.y >= o.y { self.y } else { o.y },
        }
    }

    pub open spec fn abs(self) -> Vec2 {
        Vec2 { x: crate::num::abs_int(self.x), y: crate::num::abs_int(self.y) }
    }

    /// `(1 - t) * self + t * o`, componentwise.
    pub open spec fn lerp(self, o: Vec2, t: int) -> Vec2 {
        Vec2 { x: (1 - t) * self.x + t * o.x, y: (1 - t) * self.y + t * o.y }
    }

    /// Both components are representable in `T`.
    pub open spec fn fits<T: crate::num::Scalar>(self) -> bool {
        T::fits(self.x) && T::fits(self.y)
    }

    /// The image of `self` under the rotation whose angle has sine `s` and
    /// cosine `c`.
    pub open spec fn rotate(self, s: int, c: int) -> Vec2 {
        Vec2 { x: self.x * c - self.y * s, y: self.y * c + self.x * s }
    }

    /// The rotation of `self` by sine `s` and cosine `c` can be computed in `T`.
    pub open spec fn rotate_fits<T: crate::num::Scalar>(self, s: int, c: int) -> bool {
        &&& T::fits(self.x * c)
        &&& T::fits(self.y * s)
        &&& T::fits(self.y * c)
        &&& T::fits(self.x * s)
        &&& self.rotate(s, c).fits::<T>()
    }

    /// Each component lies between those of `lo` and `hi`, ends included.
    pub open spec fn between(self, lo: Vec2, hi: Vec2) -> bool {
        lo.x <= self.x <= hi.x && lo.y <= self.y <= hi.y
    }
}

impl Vec3 {
    pub open spec fn zero() -> Vec3 {
        Vec3 { x: 0, y: 0, z: 0 }
    }

    pub open spec fn splat(v: int) -> Vec3 {
        Vec3 { x: v, y: v, z: v }
    }

    pub open spec fn add(self, o: Vec3) -> Vec3 {
        Vec3 { x: self.x + o.x, y: self.y + o.y, z: self.z + o.z }
    }

    pub open spec fn sub(self, o: Vec3) -> Vec3 {
        Vec3 { x: self.x - o.x, y: self.y - o.y, z: self.z - o.z }
    }

    pub open spec fn neg(self) -> Vec3 {
        Vec3 { x: -self.x, y: -self.y, z: -self.z }
    }

    pub open spec fn scale(self, k: int) -> Vec3 {
        Vec3 { x: self.x * k, y: self.y * k, z: self.z * k }
    }

    /// Componentwise quotient by `k`, rounded toward zero.
    pub open spec fn div(self, k: int) -> Vec3 {
        Vec3 {
            x: crate::num::trunc_div(self.x, k),
            y: crate::num::trunc_div(self.y, k),
            z: crate::num::trunc_div(self.z, k),
        }
    }

    pub open spec fn component_mul(self, o: Vec3) -> Vec3 {
        Vec3 { x: self.x * o.x, y: self.y * o.y, z: self.z * o.z }
    }

    pub open spec fn component_div(self, o: Vec3) -> Vec3 {
        Vec3 {
            x: crate::num::trunc_div(self.x, o.x),
            y: crate::num::trunc_div(self.y, o.y),
            z: crate::num::trunc_div(self.z, o.z),
        }
    }

    pub open spec fn dot(self, o: Vec3) -> int {
        self.x * o.x + self.y * o.y + self.z * o.z
    }

    pub open spec fn cross(self, o: Vec3) -> Vec3 {
        Vec3 {
            x: self.y * o.z - self.z * o.y,
            y: self.z * o.x - self.x * o.z,
            z: self.x * o.y - self.y * o.x,
        }
    }

    pub open spec fn min(self, o: Vec3) -> Vec3 {
        Vec3 {
            x: if self.x <= o.x { self.x } else { o.x },
            y: if self.y <= o.y { self.y } else { o.y },
            z: if self.z <= o.z { self.z } else { o.z },
        }
    }

    pub open spec fn max(self, o: Vec3) -> Vec3 {
        Vec3 {
            x: if self.x >= o.x { self.x } else { o.x },
            y: if self.y >= o.y { self.y } else { o.y },
            z: if self.z >= o.z { self.z } else { o.z },
        }
    }

    pub open spec fn abs(self) -> Vec3 {
        Vec3 {
            x: crate::num::abs_int(self.x),
            y: crate::num::abs_int(self.y),
            z: crate::num::abs_int(self.z),
        }
    }

    /// `(1 - t) * self + t * o`, componentwise.
    pub open spec fn lerp(self, o: Vec3, t: int) -> Vec3 {
        Vec3 {
            x: (1 - t) * self.x + t * o.x,
            y: (1 - t) * self.y + t * o.y,
            z: (1 - t) * self.z + t * o.z,
        }
    }

    /// All three components are representable in `T`.
    pub open spec fn fits<T: crate::num::Scalar>(self) -> bool {
        T::fits(self.x) && T::fits(self.y) && T::fits(self.z)
    }

    /// The cross product with `o` can be computed in `T`: its six products and
    /// three differences are representable.
    pub open spec fn cross_fits<T: crate::num::Scalar>(self, o: Vec3) -> bool {
        &&& T::fits(self.y * o.z)
        &&& T::fits(self.z * o.y)
        &&& T::fits(self.z * o.x)
        &&& T::fits(self.x * o.z)
        &&& T::fits(self.x * o.y)
        &&& T::fits(self.y * o.x)
        &&& self.cross(o).fits::<T>()
    }

    /// Each component lies between those of `lo` and `hi`, ends included.
    pub open spec fn between(self, lo: Vec3, hi: Vec3) -> bool {
        lo.x <= self.x <= hi.x && lo.y <= self.y <= hi.y && lo.z <= self.z <= hi.z
    }
}

impl Vec4 {
    pub open spec fn add(self, o: Vec4) -> Vec4 {
        Vec4 { x: self.x + o.x, y: self.y + o.y, z: self.z + o.z, w: self.w + o.w }
    }

    pub open spec fn sub(self, o: Vec4) -> Vec4 {
        Vec4 { x: self.x - o.x, y: self.y - o.y, z: self.z - o.z, w: self.w - o.w }
    }

    pub open spec fn scale(self, k: int) -> Vec4 {
        Vec4 { x: self.x * k, y: self.y * k, z: self.z * k, w: self.w * k }
    }

    pub open spec fn dot(self, o: Vec4) -> int {
        self.x * o.x + self.y * o.y + self.z * o.z + self.w * o.w
    }

    /// All four components are representable in `T`.
    pub open spec fn fits<T: crate::num::Scalar>(self) -> bool {
        T::fits(self.x) && T::fits(self.y) && T::fits(self.z) && T::fits(self.w)
    }
}

/// A quaternion with real part `a` and imaginary parts `i`, `j`, `k`, all
/// integers.
pub struct Quat {
    pub a: int,
    pub i: int,
    pub j: int,
    pub k: int,
}

impl Quat {
    pub open spec fn identity() -> Quat {
        Quat { a: 1, i: 0, j: 0, k: 0 }
    }

    /// The vector part `(i, j, k)`.
    pub open spec fn vector_part(self) -> Vec3 {
        Vec3 { x: self.i, y: self.j, z: self.k }
    }

    /// The quaternion with no real part and `v` as its vector part.
    pub open spec fn of_vector(v: Vec3) -> Quat {
        Quat { a: 0, i: v.x, j: v.y, k: v.z }
    }

    /// The sum of the squares of the four parts.
    pub open spec fn norm_squared(self) -> int {
        self.a * self.a + self.i * self.i + self.j * self.j + self.k * self.k
    }

    /// Whether the quaternion has norm one, and so stands for a rotation.
    pub open spec fn is_unit(self) -> bool {
        self.norm_squared() == 1
    }

    /// The conjugate: the vector part negated.
    pub open spec fn conjugate(self) -> Quat {
        Quat { a: self.a, i: -self.i, j: -self.j, k: -self.k }
    }

    pub open spec fn add(self, o: Quat) -> Quat {
        Quat { a: self.a + o.a, i: self.i + o.i, j: self.j + o.j, k: self.k + o.k }
    }

    pub open spec fn sub(self, o: Quat) -> Quat {
        Quat { a: self.a - o.a, i: self.i - o.i, j: self.j - o.j, k: self.k - o.k }
    }

    pub open spec fn scale(self, f: int) -> Quat {
        Quat { a: self.a * f, i: self.i * f, j: self.j * f, k: self.k * f }
    }

    /// The four-dimensional dot product; for unit quaternions, the cosine of
    /// the angle between them.
    pub open spec fn dot(self, o: Quat) -> int {
        self.a * o.a + self.i * o.i + self.j * o.j + self.k * o.k
    }

    /// The linear blend `self * (1 - t) + o * t`, part by part.
    pub open spec fn blend(self, o: Quat, t: int) -> Quat {
        self.scale(1 - t).add(o.scale(t))
    }

    /// The Hamilton product `self * r`: the rotation `r` followed by `self`.
    pub open spec fn mul(self, r: Quat) -> Quat {
        Quat {
            a: self.a * r.a - self.i * r.i - self.j * r.j - self.k * r.k,
            i: self.i * r.a + self.a * r.i + self.j * r.k - self.k * r.j,
            j: self.j * r.a + self.a * r.j + self.k * r.i - self.i * r.k,
            k: self.k * r.a + self.a * r.k + self.i * r.j - self.j * r.i,
        }
    }

    /// The quaternion built from the sines and cosines of the three half
    /// Euler angles: roll (`sr`, `cr`), pitch (`sp`, `cp`) and yaw (`sy`, `cy`).
    pub open spec fn from_euler_sin_cos(
        sr: int,
        cr: int,
        sp: int,
        cp: int,
        sy: int,
        cy: int,
    ) -> Quat {
        Quat {
            a: cy * cr * cp + sy * sr * sp,
            i: cy * sr * cp - sy * cr * sp,
            j: cy * cr * sp + sy * sr * cp,
            k: sy * cr * cp - cy * sr * sp,
        }
    }

    /// The image of `p` under the rotation: with `v` the vector part and
    /// `c = 2 * cross(v, p)`, it is `p + a * c + cross(v, c)`.
    pub open spec fn rotate(self, p: Vec3) -> Vec3 {
        let c = self.vector_part().cross(p).scale(2);
        Vec3 {
            x: p.x + self.a * c.x + self.j * c.z - self.k * c.y,
            y: p.y + self.a * c.y + self.k * c.x - self.i * c.z,
            z: p.z + self.a * c.z + self.i * c.y - self.j * c.x,
        }
    }

    /// All four parts are representable in `T`.
    pub open spec fn fits<T: crate::num::Scalar>(self) -> bool {
        T::fits(self.a) && T::fits(self.i) && T::fits(self.j) && T::fits(self.k)
    }
}

/// `lo` and `hi` bound the first `n` of `points` tightly: each of those points
/// lies between them, and each coordinate of `lo` and of `hi` is reached by one
/// of them. No smaller axis-aligned box holds them all.
pub open spec fn tight_bounds_of_first2(points: Seq<Vec2>, n: int, lo: Vec2, hi: Vec2) -> bool {
    &&& forall|i: int| 0 <= i < n ==> (#[trigger] points[i]).between(lo, hi)
    &&& exists|i: int| 0 <= i < n && (#[trigger] points[i]).x == lo.x
    &&& exists|i: int| 0 <= i < n && (#[trigger] points[i]).y == lo.y
    &&& exists|i: int| 0 <= i < n && (#[trigger] points[i]).x == hi.x
    &&& exists|i: int| 0 <= i < n && (#[trigger] points[i]).y == hi.y
}

/// `lo` and `hi` are the componentwise minimum and maximum of `points`.
pub open spec fn tight_bounds2(points: Seq<Vec2>, lo: Vec2, hi: Vec2) -> bool {
    tight_bounds_of_first2(points, points.len() as int, lo, hi)
}

/// `lo` and `hi` bound the first `n` of `points` tightly: each of those points
/// lies between them, and each coordinate of `lo` and of `hi` is reached by one
/// of them. No smaller axis-aligned box holds them all.
pub open spec fn tight_bounds_of_first3(points: Seq<Vec3>, n: int, lo: Vec3, hi: Vec3) -> bool {
    &&& forall|i: int| 0 <= i < n ==> (#[trigger] points[i]).between(lo, hi)
    &&& exists|i: int| 0 <= i < n && (#[trigger] points[i]).x == lo.x
    &&& exists|i: int| 0 <= i < n && (#[trigger] points[i]).y == lo.y
    &&& exists|i: int| 0 <= i < n && (#[trigger] points[i]).z == lo.z
    &&& exists|i: int| 0 <= i < n && (#[trigger] points[i]).x == hi.x
    &&& exists|i: int| 0 <= i < n && (#[trigger] points[i]).y == hi.y
    &&& exists|i: int| 0 <= i < n && (#[trigger] points[i]).z == hi.z
}

/// `lo` and `hi` are the componentwise minimum and maximum of `points`.
pub open spec fn tight_bounds3(points: Seq<Vec3>, lo: Vec3, hi: Vec3) -> bool {
    tight_bounds_of_first3(points, points.len() as int, lo, hi)
}

/// Tight bounds are unique: the smallest box around a set of points is
/// determined by the points.
pub proof fn lemma_tight_bounds_unique3(
    points: Seq<Vec3>,
    lo1: Vec3,
    hi1: Vec3,
    lo2: Vec3,
    hi2: Vec3,
)
    requires
        tight_bounds3(points, lo1, hi1),
        tight_bounds3(points, lo2, hi2),
    ensures
        lo1 == lo2,
        hi1 == hi2,
{
}

/// Tight bounds are unique: the smallest box around a set of points is
/// determined by the points.
pub proof fn lemma_tight_bounds_unique2(
    points: Seq<Vec2>,
    lo1: Vec2,
    hi1: Vec2,
    lo2: Vec2,
    hi2: Vec2,
)
    requires
        tight_bounds2(points, lo1, hi1),
        tight_bounds2(points, lo2, hi2),
    ensures
        lo1 == lo2,
        hi1 == hi2,
{
}

/// Determinant of the 3x3 matrix with rows `(a, b, c)`, `(d, e, f)`, `(g, h, i)`.
pub open spec fn det3(
    a: int,
    b: int,
    c: int,
    d: int,
    e: int,
    f: int,
    g: int,
    h: int,
    i: int,
) -> int {
    a * (e * i - f * h) - b * (d * i - f * g) + c * (d * h - e * g)
}

impl Mat3x2 {
    pub open spec fn identity() -> Mat3x2 {
        Mat3x2 { m11: 1, m12: 0, m21: 0, m22: 1, m31: 0, m32: 0 }
    }

    /// The map that moves every point by `v`.
    pub open spec fn translation(v: Vec2) -> Mat3x2 {
        Mat3x2 { m11: 1, m12: 0, m21: 0, m22: 1, m31: v.x, m32: v.y }
    }

    /// The map that stretches the axes by `x` and `y`.
    pub open spec fn scaling(x: int, y: int) -> Mat3x2 {
        Mat3x2 { m11: x, m12: 0, m21: 0, m22: y, m31: 0, m32: 0 }
    }

    /// The rotation about the origin whose angle has cosine `c` and sine `s`.
    pub open spec fn rotation(c: int, s: int) -> Mat3x2 {
        Mat3x2 { m11: c, m12: s, m21: -s, m22: c, m31: 0, m32: 0 }
    }

    /// The map that applies `self` first and `b` second.
    pub open spec fn mul(self, b: Mat3x2) -> Mat3x2 {
        Mat3x2 {
            m11: self.m11 * b.m11 + self.m12 * b.m21,
            m12: self.m11 * b.m12 + self.m12 * b.m22,
            m21: self.m21 * b.m11 + self.m22 * b.m21,
            m22: self.m21 * b.m12 + self.m22 * b.m22,
            m31: self.m31 * b.m11 + self.m32 * b.m21 + b.m31,
            m32: self.m31 * b.m12 + self.m32 * b.m22 + b.m32,
        }
    }

    /// Determinant of the linear part.
    pub open spec fn det(self) -> int {
        self.m11 * self.m22 - self.m12 * self.m21
    }

    /// The matrix that, divided by the determinant, inverts `self`.
    pub open spec fn adjugate(self) -> Mat3x2 {
        Mat3x2 {
            m11: self.m22,
            m12: -self.m12,
            m21: -self.m21,
            m22: self.m11,
            m31: self.m21 * self.m32 - self.m22 * self.m31,
            m32: self.m12 * self.m31 - self.m11 * self.m32,
        }
    }

    /// Every entry multiplied by `k`.
    pub open spec fn scale(self, k: int) -> Mat3x2 {
        Mat3x2 {
            m11: k * self.m11,
            m12: k * self.m12,
            m21: k * self.m21,
            m22: k * self.m22,
            m31: k * self.m31,
            m32: k * self.m32,
        }
    }

    /// Image of a point: the linear part applied, then the offset added.
    pub open spec fn apply_point(self, p: Vec2) -> Vec2 {
        Vec2 {
            x: p.x * self.m11 + p.y * self.m21 + self.m31,
            y: p.x * self.m12 + p.y * self.m22 + self.m32,
        }
    }

    /// Image of a direction: the linear part alone.
    pub open spec fn apply_vector(self, v: Vec2) -> Vec2 {
        Vec2 { x: v.x * self.m11 + v.y * self.m21, y: v.x * self.m12 + v.y * self.m22 }
    }

    /// Image of a covector under the transpose of the linear part.
    pub open spec fn apply_transposed(self, n: Vec2) -> Vec2 {
        Vec2 { x: n.x * self.m11 + n.y * self.m12, y: n.x * self.m21 + n.y * self.m22 }
    }
}

impl Mat4 {
    pub open spec fn identity() -> Mat4 {
        Mat4 {
            m11: 1, m12: 0, m13: 0, m14: 0,
            m21: 0, m22: 1, m23: 0, m24: 0,
            m31: 0, m32: 0, m33: 1, m34: 0,
            m41: 0, m42: 0, m43: 0, m44: 1,
        }
    }

    /// The map that moves every point by `v`.
    pub open spec fn translation(v: Vec3) -> Mat4 {
        Mat4 {
            m11: 1, m12: 0, m13: 0, m14: 0,
            m21: 0, m22: 1, m23: 0, m24: 0,
            m31: 0, m32: 0, m33: 1, m34: 0,
            m41: v.x, m42: v.y, m43: v.z, m44: 1,
        }
    }

    /// The map that stretches the axes by `x`, `y` and `z`.
    pub open spec fn scaling(x: int, y: int, z: int) -> Mat4 {
        Mat4 {
            m11: x, m12: 0, m13: 0, m14: 0,
            m21: 0, m22: y, m23: 0, m24: 0,
            m31: 0, m32: 0, m33: z, m34: 0,
            m41: 0, m42: 0, m43: 0, m44: 1,
        }
    }

    pub open spec fn transpose(self) -> Mat4 {
        Mat4 {
            m11: self.m11, m12: self.m21, m13: self.m31, m14: self.m41,
            m21: self.m12, m22: self.m22, m23: self.m32, m24: self.m42,
            m31: self.m13, m32: self.m23, m33: self.m33, m34: self.m43,
            m41: self.m14, m42: self.m24, m43: self.m34, m44: self.m44,
        }
    }

    pub open spec fn row1(self) -> Vec4 {
        Vec4 { x: self.m11, y: self.m12, z: self.m13, w: self.m14 }
    }

    pub open spec fn row2(self) -> Vec4 {
        Vec4 { x: self.m21, y: self.m22, z: self.m23, w: self.m24 }
    }

    pub open spec fn row3(self) -> Vec4 {
        Vec4 { x: self.m31, y: self.m32, z: self.m33, w: self.m34 }
    }

    pub open spec fn row4(self) -> Vec4 {
        Vec4 { x: self.m41, y: self.m42, z: self.m43, w: self.m44 }
    }

    pub open spec fn col1(self) -> Vec4 {
        Vec4 { x: self.m11, y: self.m21, z: self.m31, w: self.m41 }
    }

    pub open spec fn col2(self) -> Vec4 {
        Vec4 { x: self.m12, y: self.m22, z: self.m32, w: self.m42 }
    }

    pub open spec fn col3(self) -> Vec4 {
        Vec4 { x: self.m13, y: self.m23, z: self.m33, w: self.m43 }
    }

    pub open spec fn col4(self) -> Vec4 {
        Vec4 { x: self.m14, y: self.m24, z: self.m34, w: self.m44 }
    }

    /// The matrix product `self * b`: entry `(i, j)` is row `i` of `self` dotted
    /// with column `j` of `b`.
    pub open spec fn mul(self, b: Mat4) -> Mat4 {
        Mat4 {
            m11: self.row1().dot(b.col1()), m12: self.row1().dot(b.col2()),
            m13: self.row1().dot(b.col3()), m14: self.row1().dot(b.col4()),
            m21: self.row2().dot(b.col1()), m22: self.row2().dot(b.col2()),
            m23: self.row2().dot(b.col3()), m24: self.row2().dot(b.col4()),
            m31: self.row3().dot(b.col1()), m32: self.row3().dot(b.col2()),
            m33: self.row3().dot(b.col3()), m34: self.row3().dot(b.col4()),
            m41: self.row4().dot(b.col1()), m42: self.row4().dot(b.col2()),
            m43: self.row4().dot(b.col3()), m44: self.row4().dot(b.col4()),
        }
    }

    /// Every entry multiplied by `k`.
    pub open spec fn scale(self, k: int) -> Mat4 {
        Mat4 {
            m11: k * self.m11, m12: k * self.m12, m13: k * self.m13, m14: k * self.m14,
            m21: k * self.m21, m22: k * self.m22, m23: k * self.m23, m24: k * self.m24,
            m31: k * self.m31, m32: k * self.m32, m33: k * self.m33, m34: k * self.m34,
            m41: k * self.m41, m42: k * self.m42, m43: k * self.m43, m44: k * self.m44,
        }
    }

    /// Determinant, by cofactor expansion along the last row.
    pub open spec fn det(self) -> int {
        -(self.m41 * det3(
            self.m12, self.m13, self.m14,
            self.m22, self.m23, self.m24,
            self.m32, self.m33, self.m34,
        )) + self.m42 * det3(
            self.m11, self.m13, self.m14,
            self.m21, self.m23, self.m24,
            self.m31, self.m33, self.m34,
        ) - self.m43 * det3(
            self.m11, self.m12, self.m14,
            self.m21, self.m22, self.m24,
            self.m31, self.m32, self.m34,
        ) + self.m44 * det3(
            self.m11, self.m12, self.m13,
            self.m21, self.m22, self.m23,
            self.m31, self.m32, self.m33,
        )
    }

    /// The adjugate: entry `(i, j)` is the cofactor of entry `(j, i)`, that is the
    /// determinant of `self` without row `j` and column `i`, negated when `i + j`
    /// is odd.
    pub open spec fn adjugate(self) -> Mat4 {
        let m = self;
        Mat4 {
            m11: det3(m.m22, m.m23, m.m24, m.m32, m.m33, m.m34, m.m42, m.m43, m.m44),
            m12: -det3(m.m12, m.m13, m.m14, m.m32, m.m33, m.m34, m.m42, m.m43, m.m44),
            m13: det3(m.m12, m.m13, m.m14, m.m22, m.m23, m.m24, m.m42, m.m43, m.m44),
            m14: -det3(m.m12, m.m13, m.m14, m.m22, m.m23, m.m24, m.m32, m.m33, m.m34),
            m21: -det3(m.m21, m.m23, m.m24, m.m31, m.m33, m.m34, m.m41, m.m43, m.m44),
            m22: det3(m.m11, m.m13, m.m14, m.m31, m.m33, m.m34, m.m41, m.m43, m.m44),
            m23: -det3(m.m11, m.m13, m.m14, m.m21, m.m23, m.m24, m.m41, m.m43, m.m44),
            m24: det3(m.m11, m.m13, m.m14, m.m21, m.m23, m.m24, m.m31, m.m33, m.m34),
            m31: det3(m.m21, m.m22, m.m24, m.m31, m.m32, m.m34, m.m41, m.m42, m.m44),
            m32: -det3(m.m11, m.m12, m.m14, m.m31, m.m32, m.m34, m.m41, m.m42, m.m44),
            m33: det3(m.m11, m.m12, m.m14, m.m21, m.m22, m.m24, m.m41, m.m42, m.m44),
            m34: -det3(m.m11, m.m12, m.m14, m.m21, m.m22, m.m24, m.m31, m.m32, m.m34),
            m41: -det3(m.m21, m.m22, m.m23, m.m31, m.m32, m.m33, m.m41, m.m42, m.m43),
            m42: det3(m.m11, m.m12, m.m13, m.m31, m.m32, m.m33, m.m41, m.m42, m.m43),
            m43: -det3(m.m11, m.m12, m.m13, m.m21, m.m22, m.m23, m.m41, m.m42, m.m43),
            m44: det3(m.m11, m.m12, m.m13, m.m21, m.m22, m.m23, m.m31, m.m32, m.m33),
        }
    }

    /// Every entry is representable in `T`.
    pub open spec fn fits<T: crate::num::Scalar>(self) -> bool {
        &&& self.row1().fits::<T>()
        &&& self.row2().fits::<T>()
        &&& self.row3().fits::<T>()
        &&& self.row4().fits::<T>()
    }

    /// Whether the fourth column is `(0, 0, 0, 1)`: the map has no projective part.
    pub open spec fn is_affine(self) -> bool {
        self.m14 == 0 && self.m24 == 0 && self.m34 == 0 && self.m44 == 1
    }

    /// Image of the point `p`, taken as the row vector `(p.x, p.y, p.z, 1)`.
    pub open spec fn apply_point(self, p: Vec3) -> Vec4 {
        Vec4 {
            x: p.x * self.m11 + p.y * self.m21 + p.z * self.m31 + self.m41,
            y: p.x * self.m12 + p.y * self.m22 + p.z * self.m32 + self.m42,
            z: p.x * self.m13 + p.y * self.m23 + p.z * self.m33 + self.m43,
            w: p.x * self.m14 + p.y * self.m24 + p.z * self.m34 + self.m44,
        }
    }

    /// Image of the direction `v`: the upper-left 3x3 block alone.
    pub open spec fn apply_vector(self, v: Vec3) -> Vec3 {
        Vec3 {
            x: v.x * self.m11 + v.y * self.m21 + v.z * self.m31,
            y: v.x * self.m12 + v.y * self.m22 + v.z * self.m32,
            z: v.x * self.m13 + v.y * self.m23 + v.z * self.m33,
        }
    }

    /// Image of a covector under the transpose of the upper-left 3x3 block.
    pub open spec fn apply_transposed(self, n: Vec3) -> Vec3 {
        Vec3 {
            x: n.x * self.m11 + n.y * self.m12 + n.z * self.m13,
            y: n.x * self.m21 + n.y * self.m22 + n.z * self.m23,
            z: n.x * self.m31 + n.y * self.m32 + n.z * self.m33,
        }
    }
}

/// The model of a 2D transform: its matrix and the matrix kept for the way
/// back.
pub struct Transform2Model {
    pub mat: Mat3x2,
    pub inv: Mat3x2,
}

/// The model of a 3D transform: its matrix and the matrix kept for the way
/// back.
pub struct Transform3Model {
    pub mat: Mat4,
    pub inv: Mat4,
}

impl Transform2Model {
    pub open spec fn identity() -> Transform2Model {
        Transform2Model { mat: Mat3x2::identity(), inv: Mat3x2::identity() }
    }

    pub open spec fn translation(v: Vec2) -> Transform2Model {
        Transform2Model { mat: Mat3x2::translation(v), inv: Mat3x2::translation(v.neg()) }
    }

    /// The transform that applies `self` first and `o` second. The matrices for
    /// the way back are multiplied in the opposite order.
    pub open spec fn compose(self, o: Transform2Model) -> Transform2Model {
        Transform2Model { mat: self.mat.mul(o.mat), inv: o.inv.mul(self.inv) }
    }

    /// The transform back: the two matrices change places.
    pub open spec fn inverse(self) -> Transform2Model {
        Transform2Model { mat: self.inv, inv: self.mat }
    }

    /// Whether the kept matrix undoes the forward matrix exactly, on both sides.
    pub open spec fn is_exact(self) -> bool {
        &&& self.mat.mul(self.inv) == Mat3x2::identity()
        &&& self.inv.mul(self.mat) == Mat3x2::identity()
    }
}

impl Transform3Model {
    pub open spec fn identity() -> Transform3Model {
        Transform3Model { mat: Mat4::identity(), inv: Mat4::identity() }
    }

    pub open spec fn translation(v: Vec3) -> Transform3Model {
        Transform3Model { mat: Mat4::translation(v), inv: Mat4::translation(v.neg()) }
    }

    /// The transform that applies `self` first and `o` second. The matrices for
    /// the way back are multiplied in the opposite order.
    pub open spec fn compose(self, o: Transform3Model) -> Transform3Model {
        Transform3Model { mat: self.mat.mul(o.mat), inv: o.inv.mul(self.inv) }
    }

    /// The transform back: the two matrices change places.
    pub open spec fn inverse(self) -> Transform3Model {
        Transform3Model { mat: self.inv, inv: self.mat }
    }

    /// Whether the kept matrix undoes the forward matrix exactly, on both sides.
    pub open spec fn is_exact(self) -> bool {
        &&& self.mat.mul(self.inv) == Mat4::identity()
        &&& self.inv.mul(self.mat) == Mat4::identity()
    }
}

/// Equal factors give equal products.
pub proof fn lemma_mul_congruent(k: int, x: int, y: int)
    requires
        x == y,
    ensures
        k * x == k * y,
        x * k == y * k,
{
}

/// A triple product scaled on the left is the same product extended on the right.
pub proof fn lemma_scale_prod3(k: int, x: int, y: int, z: int)
    by (nonlinear_arith)
    ensures
        k * (x * y * z) == x * y * z * k,
{
}

/// Multiplication distributes over a signed sum of six terms.
pub proof fn lemma_distribute6(k: int, x1: int, x2: int, x3: int, x4: int, x5: int, x6: int)
    by (nonlinear_arith)
    ensures
        k * (x1 - x2 - x3 + x4 + x5 - x6) == k * x1 - k * x2 - k * x3 + k * x4 + k * x5 - k * x6,
{
}

/// The 3x3 determinant as its six signed products.
pub proof fn lemma_det3_expanded(
    a: int,
    b: int,
    c: int,
    d: int,
    e: int,
    f: int,
    g: int,
    h: int,
    i: int,
)
    ensures
        det3(a, b, c, d, e, f, g, h, i) == a * e * i - a * f * h - b * d * i + b * f * g + c * d * h
            - c * e * g,
{
    assert(a * (e * i - f * h) == a * e * i - a * f * h) by (nonlinear_arith);
    assert(b * (d * i - f * g) == b * d * i - b * f * g) by (nonlinear_arith);
    assert(c * (d * h - e * g) == c * d * h - c * e * g) by (nonlinear_arith);
}

/// Six signed products of three entries of a 3x3 block and a common factor `k`
/// sum to `-k` times the determinant of the block.
pub proof fn lemma_signed_minor(
    a: int,
    b: int,
    c: int,
    d: int,
    e: int,
    f: int,
    g: int,
    h: int,
    i: int,
    k: int,
)
    ensures
        c * e * g * k - b * f * g * k - c * d * h * k + a * f * h * k + b * d * i * k - a * e * i
            * k == -(k * det3(a, b, c, d, e, f, g, h, i)),
{
    lemma_det3_expanded(a, b, c, d, e, f, g, h, i);
    lemma_mul_congruent(
        k,
        det3(a, b, c, d, e, f, g, h, i),
        a * e * i - a * f * h - b * d * i + b * f * g + c * d * h - c * e * g,
    );
    lemma_distribute6(k, a * e * i, a * f * h, b * d * i, b * f * g, c * d * h, c * e * g);
    lemma_scale_prod3(k, a, e, i);
    lemma_scale_prod3(k, a, f, h);
    lemma_scale_prod3(k, b, d, i);
    lemma_scale_prod3(k, b, f, g);
    lemma_scale_prod3(k, c, d, h);
    lemma_scale_prod3(k, c, e, g);
}

} // verus!

//! General 3D projective transforms: a 4x4 matrix acting on row vectors,
//! stored together with the matrix that undoes it.
use vstd::prelude::*;
use vstd::std_specs::cmp::PartialEqSpecImpl;
use vstd::std_specs::ops::MulSpecImpl;
use std::marker::PhantomData;
use std::ops::Mul;
use crate::arith::{
    cofactor_even, cofactor_even_fits, cofactor_even_sum, cofactor_odd, cofactor_odd_fits,
    cofactor_odd_sum, dot3, dot3_fits, dot4, dot4_fits, prod4, prod4_fits,
};
use crate::bounds::{ok_points3, views3, Box3};
use crate::frame::{
    is_orthonormal_pair, lemma_view_matrix_centres_eye, lemma_view_matrix_is_rigid,
};
use crate::homogen::{to_point3_spec, HomogeneousVector};
use crate::identities::{
    lemma_affine_keeps_w, lemma_axis_angle_exact, lemma_composition_exact3, lemma_quat_matrix_exact,
    lemma_quaternion_matrix_agrees, lemma_translation_exact, lemma_unimodular_inverse3,
    lemma_unit_scaling_exact,
};
use crate::model::{
    det3, lemma_det3_expanded, lemma_distribute6, lemma_mul_congruent, lemma_signed_minor,
    tight_bounds3, Mat4, Quat, Transform3Model, Vec2, Vec3, Vec4,
};
use crate::num::{half_of, lemma_is_of_int, trunc_div, unit_pair, Scalar, Trig, Zero};
use crate::point::Point3;
use crate::quaternion::{
    lemma_axis_angle_is_rotation, lemma_axis_stays, lemma_quat_matrix_det,
};
use crate::rotation::Rotation3;
use crate::scale::Scale;
use crate::space::{Normal, UnknownUnit};
use crate::transform::{Transform, Transformation};
use crate::translation::Translation3;
use crate::units::{Angle, Length};
use crate::vector::Vector3;

verus! {

/// A 3D transform from `Src` space to `Dst` space.
///
/// Holds the forward matrix and a cached matrix for the way back. Both are
/// written together at construction and never change afterwards.
#[derive(Debug)]
pub struct Transform3<T, Src, Dst> {
    mat: [[T; 4]; 4],
    mat_inv: [[T; 4]; 4],
    _unit: PhantomData<(Src, Dst)>,
}

impl<T: Copy, Src, Dst> Copy for Transform3<T, Src, Dst> {
}

impl<T: Copy, Src, Dst> Clone for Transform3<T, Src, Dst> {
    fn clone(&self) -> (r: Self)
        ensures
            r == *self,
    {
        *self
    }
}

/// The integer matrix a 4x4 array of scalars stands for.
pub open spec fn mat4_of<T: Scalar>(m: [[T; 4]; 4]) -> Mat4 {
    Mat4 {
        m11: m[0][0].val(),
        m12: m[0][1].val(),
        m13: m[0][2].val(),
        m14: m[0][3].val(),
        m21: m[1][0].val(),
        m22: m[1][1].val(),
        m23: m[1][2].val(),
        m24: m[1][3].val(),
        m31: m[2][0].val(),
        m32: m[2][1].val(),
        m33: m[2][2].val(),
        m34: m[2][3].val(),
        m41: m[3][0].val(),
        m42: m[3][1].val(),
        m43: m[3][2].val(),
        m44: m[3][3].val(),
    }
}

/// The determinant written out as its 24 signed products, in the order in
/// which they are accumulated.
pub open spec fn det_expanded(m: Mat4) -> int {
        m.m14 * m.m23 * m.m32 * m.m41
        - m.m13 * m.m24 * m.m32 * m.m41
        - m.m14 * m.m22 * m.m33 * m.m41
        + m.m12 * m.m24 * m.m33 * m.m41
        + m.m13 * m.m22 * m.m34 * m.m41
        - m.m12 * m.m23 * m.m34 * m.m41
        - m.m14 * m.m23 * m.m31 * m.m42
        + m.m13 * m.m24 * m.m31 * m.m42
        + m.m14 * m.m21 * m.m33 * m.m42
        - m.m11 * m.m24 * m.m33 * m.m42
        - m.m13 * m.m21 * m.m34 * m.m42
        + m.m11 * m.m23 * m.m34 * m.m42
        + m.m14 * m.m22 * m.m31 * m.m43
        - m.m12 * m.m24 * m.m31 * m.m43
        - m.m14 * m.m21 * m.m32 * m.m43
        + m.m11 * m.m24 * m.m32 * m.m43
        + m.m12 * m.m21 * m.m34 * m.m43
        - m.m11 * m.m22 * m.m34 * m.m43
        - m.m13 * m.m22 * m.m31 * m.m44
        + m.m12 * m.m23 * m.m31 * m.m44
        + m.m13 * m.m21 * m.m32 * m.m44
        - m.m11 * m.m23 * m.m32 * m.m44
        - m.m12 * m.m21 * m.m33 * m.m44
        + m.m11 * m.m22 * m.m33 * m.m44
}

/// The determinant of `m` can be accumulated in `T`: each of the 24 products,
/// multiplied left to right, and each partial sum is representable.
pub open spec fn det_fits<T: Scalar>(m: Mat4) -> bool {
    let t1 = m.m14 * m.m23 * m.m32 * m.m41;
    let t2 = m.m13 * m.m24 * m.m32 * m.m41;
    let t3 = m.m14 * m.m22 * m.m33 * m.m41;
    let t4 = m.m12 * m.m24 * m.m33 * m.m41;
    let t5 = m.m13 * m.m22 * m.m34 * m.m41;
    let t6 = m.m12 * m.m23 * m.m34 * m.m41;
    let t7 = m.m14 * m.m23 * m.m31 * m.m42;
    let t8 = m.m13 * m.m24 * m.m31 * m.m42;
    let t9 = m.m14 * m.m21 * m.m33 * m.m42;
    let t10 = m.m11 * m.m24 * m.m33 * m.m42;
    let t11 = m.m13 * m.m21 * m.m34 * m.m42;
    let t12 = m.m11 * m.m23 * m.m34 * m.m42;
    let t13 = m.m14 * m.m22 * m.m31 * m.m43;
    let t14 = m.m12 * m.m24 * m.m31 * m.m43;
    let t15 = m.m14 * m.m21 * m.m32 * m.m43;
    let t16 = m.m11 * m.m24 * m.m32 * m.m43;
    let t17 = m.m12 * m.m21 * m.m34 * m.m43;
    let t18 = m.m11 * m.m22 * m.m34 * m.m43;
    let t19 = m.m13 * m.m22 * m.m31 * m.m44;
    let t20 = m.m12 * m.m23 * m.m31 * m.m44;
    let t21 = m.m13 * m.m21 * m.m32 * m.m44;
    let t22 = m.m11 * m.m23 * m.m32 * m.m44;
    let t23 = m.m12 * m.m21 * m.m33 * m.m44;
    let t24 = m.m11 * m.m22 * m.m33 * m.m44;
    let s2 = t1 - t2;
    let s3 = s2 - t3;
    let s4 = s3 + t4;
    let s5 = s4 + t5;
    let s6 = s5 - t6;
    let s7 = s6 - t7;
    let s8 = s7 + t8;
    let s9 = s8 + t9;
    let s10 = s9 - t10;
    let s11 = s10 - t11;
    let s12 = s11 + t12;
    let s13 = s12 + t13;
    let s14 = s13 - t14;
    let s15 = s14 - t15;
    let s16 = s15 + t16;
    let s17 = s16 + t17;
    let s18 = s17 - t18;
    let s19 = s18 - t19;
    let s20 = s19 + t20;
    let s21 = s20 + t21;
    let s22 = s21 - t22;
    let s23 = s22 - t23;
    let s24 = s23 + t24;
    &&& prod4_fits::<T>(m.m14, m.m23, m.m32, m.m41)
    &&& prod4_fits::<T>(m.m13, m.m24, m.m32, m.m41)
    &&& prod4_fits::<T>(m.m14, m.m22, m.m33, m.m41)
    &&& prod4_fits::<T>(m.m12, m.m24, m.m33, m.m41)
    &&& prod4_fits::<T>(m.m13, m.m22, m.m34, m.m41)
    &&& prod4_fits::<T>(m.m12, m.m23, m.m34, m.m41)
    &&& prod4_fits::<T>(m.m14, m.m23, m.m31, m.m42)
    &&& prod4_fits::<T>(m.m13, m.m24, m.m31, m.m42)
    &&& prod4_fits::<T>(m.m14, m.m21, m.m33, m.m42)
    &&& prod4_fits::<T>(m.m11, m.m24, m.m33, m.m42)
    &&& prod4_fits::<T>(m.m13, m.m21, m.m34, m.m42)
    &&& prod4_fits::<T>(m.m11, m.m23, m.m34, m.m42)
    &&& prod4_fits::<T>(m.m14, m.m22, m.m31, m.m43)
    &&& prod4_fits::<T>(m.m12, m.m24, m.m31, m.m43)
    &&& prod4_fits::<T>(m.m14, m.m21, m.m32, m.m43)
    &&& prod4_fits::<T>(m.m11, m.m24, m.m32, m.m43)
    &&& prod4_fits::<T>(m.m12, m.m21, m.m34, m.m43)
    &&& prod4_fits::<T>(m.m11, m.m22, m.m34, m.m43)
    &&& prod4_fits::<T>(m.m13, m.m22, m.m31, m.m44)
    &&& prod4_fits::<T>(m.m12, m.m23, m.m31, m.m44)
    &&& prod4_fits::<T>(m.m13, m.m21, m.m32, m.m44)
    &&& prod4_fits::<T>(m.m11, m.m23, m.m32, m.m44)
    &&& prod4_fits::<T>(m.m12, m.m21, m.m33, m.m44)
    &&& prod4_fits::<T>(m.m11, m.m22, m.m33, m.m44)
    &&& T::fits(s2)
    &&& T::fits(s3)
    &&& T::fits(s4)
    &&& T::fits(s5)
    &&& T::fits(s6)
    &&& T::fits(s7)
    &&& T::fits(s8)
    &&& T::fits(s9)
    &&& T::fits(s10)
    &&& T::fits(s11)
    &&& T::fits(s12)
    &&& T::fits(s13)
    &&& T::fits(s14)
    &&& T::fits(s15)
    &&& T::fits(s16)
    &&& T::fits(s17)
    &&& T::fits(s18)
    &&& T::fits(s19)
    &&& T::fits(s20)
    &&& T::fits(s21)
    &&& T::fits(s22)
    &&& T::fits(s23)
    &&& T::fits(s24)
}

/// The sixteen entries of the adjugate, each written out as six signed triple
/// products in the order in which they are accumulated.
pub open spec fn adjugate_expanded(m: Mat4) -> Mat4 {
    Mat4 {
            m11: cofactor_even_sum(
                (m.m23, m.m34, m.m42),
                (m.m24, m.m33, m.m42),
                (m.m24, m.m32, m.m43),
                (m.m22, m.m34, m.m43),
                (m.m23, m.m32, m.m44),
                (m.m22, m.m33, m.m44),
            ),
            m12: cofactor_odd_sum(
                (m.m14, m.m33, m.m42),
                (m.m13, m.m34, m.m42),
                (m.m14, m.m32, m.m43),
                (m.m12, m.m34, m.m43),
                (m.m13, m.m32, m.m44),
                (m.m12, m.m33, m.m44),
            ),
            m13: cofactor_even_sum(
                (m.m13, m.m24, m.m42),
                (m.m14, m.m23, m.m42),
                (m.m14, m.m22, m.m43),
                (m.m12, m.m24, m.m43),
                (m.m13, m.m22, m.m44),
                (m.m12, m.m23, m.m44),
            ),
            m14: cofactor_odd_sum(
                (m.m14, m.m23, m.m32),
                (m.m13, m.m24, m.m32),
                (m.m14, m.m22, m.m33),
                (m.m12, m.m24, m.m33),
                (m.m13, m.m22, m.m34),
                (m.m12, m.m23, m.m34),
            ),
            m21: cofactor_odd_sum(
                (m.m24, m.m33, m.m41),
                (m.m23, m.m34, m.m41),
                (m.m24, m.m31, m.m43),
                (m.m21, m.m34, m.m43),
                (m.m23, m.m31, m.m44),
                (m.m21, m.m33, m.m44),
            ),
            m22: cofactor_even_sum(
                (m.m13, m.m34, m.m41),
                (m.m14, m.m33, m.m41),
                (m.m14, m.m31, m.m43),
                (m.m11, m.m34, m.m43),
                (m.m13, m.m31, m.m44),
                (m.m11, m.m33, m.m44),
            ),
            m23: cofactor_odd_sum(
                (m.m14, m.m23, m.m41),
                (m.m13, m.m24, m.m41),
                (m.m14, m.m21, m.m43),
                (m.m11, m.m24, m.m43),
                (m.m13, m.m21, m.m44),
                (m.m11, m.m23, m.m44),
            ),
            m24: cofactor_even_sum(
                (m.m13, m.m24, m.m31),
                (m.m14, m.m23, m.m31),
                (m.m14, m.m21, m.m33),
                (m.m11, m.m24, m.m33),
                (m.m13, m.m21, m.m34),
                (m.m11, m.m23, m.m34),
            ),
            m31: cofactor_even_sum(
                (m.m22, m.m34, m.m41),
                (m.m24, m.m32, m.m41),
                (m.m24, m.m31, m.m42),
                (m.m21, m.m34, m.m42),
                (m.m22, m.m31, m.m44),
                (m.m21, m.m32, m.m44),
            ),
            m32: cofactor_odd_sum(
                (m.m14, m.m32, m.m41),
                (m.m12, m.m34, m.m41),
                (m.m14, m.m31, m.m42),
                (m.m11, m.m34, m.m42),
                (m.m12, m.m31, m.m44),
                (m.m11, m.m32, m.m44),
            ),
            m33: cofactor_even_sum(
                (m.m12, m.m24, m.m41),
                (m.m14, m.m22, m.m41),
                (m.m14, m.m21, m.m42),
                (m.m11, m.m24, m.m42),
                (m.m12, m.m21, m.m44),
                (m.m11, m.m22, m.m44),
            ),
            m34: cofactor_odd_sum(
                (m.m14, m.m22, m.m31),
                (m.m12, m.m24, m.m31),
                (m.m14, m.m21, m.m32),
                (m.m11, m.m24, m.m32),
                (m.m12, m.m21, m.m34),
                (m.m11, m.m22, m.m34),
            ),
            m41: cofactor_odd_sum(
                (m.m23, m.m32, m.m41),
                (m.m22, m.m33, m.m41),
                (m.m23, m.m31, m.m42),
                (m.m21, m.m33, m.m42),
                (m.m22, m.m31, m.m43),
                (m.m21, m.m32, m.m43),
            ),
            m42: cofactor_even_sum(
                (m.m12, m.m33, m.m41),
                (m.m13, m.m32, m.m41),
                (m.m13, m.m31, m.m42),
                (m.m11, m.m33, m.m42),
                (m.m12, m.m31, m.m43),
                (m.m11, m.m32, m.m43),
            ),
            m43: cofactor_odd_sum(
                (m.m13, m.m22, m.m41),
                (m.m12, m.m23, m.m41),
                (m.m13, m.m21, m.m42),
                (m.m11, m.m23, m.m42),
                (m.m12, m.m21, m.m43),
                (m.m11, m.m22, m.m43),
            ),
            m44: cofactor_even_sum(
                (m.m12, m.m23, m.m31),
                (m.m13, m.m22, m.m31),
                (m.m13, m.m21, m.m32),
                (m.m11, m.m23, m.m32),
                (m.m12, m.m21, m.m33),
                (m.m11, m.m22, m.m33),
            ),
    }
}

/// The inverse of `m` can be computed in `T`: the reciprocal of the determinant
/// and each entry of the adjugate scaled by it.
pub open spec fn inverse_fits<T: Scalar>(m: Mat4) -> bool {
    let d = trunc_div(1, m.det());
    &&& T::fits(d)
    &&& cofactor_even_fits::<T>(
        d,
        (m.m23, m.m34, m.m42),
        (m.m24, m.m33, m.m42),
        (m.m24, m.m32, m.m43),
        (m.m22, m.m34, m.m43),
        (m.m23, m.m32, m.m44),
        (m.m22, m.m33, m.m44),
    )
    &&& cofactor_odd_fits::<T>(
        d,
        (m.m14, m.m33, m.m42),
        (m.m13, m.m34, m.m42),
        (m.m14, m.m32, m.m43),
        (m.m12, m.m34, m.m43),
        (m.m13, m.m32, m.m44),
        (m.m12, m.m33, m.m44),
    )
    &&& cofactor_even_fits::<T>(
        d,
        (m.m13, m.m24, m.m42),
        (m.m14, m.m23, m.m42),
        (m.m14, m.m22, m.m43),
        (m.m12, m.m24, m.m43),
        (m.m13, m.m22, m.m44),
        (m.m12, m.m23, m.m44),
    )
    &&& cofactor_odd_fits::<T>(
        d,
        (m.m14, m.m23, m.m32),
        (m.m13, m.m24, m.m32),
        (m.m14, m.m22, m.m33),
        (m.m12, m.m24, m.m33),
        (m.m13, m.m22, m.m34),
        (m.m12, m.m23, m.m34),
    )
    &&& cofactor_odd_fits::<T>(
        d,
        (m.m24, m.m33, m.m41),
        (m.m23, m.m34, m.m41),
        (m.m24, m.m31, m.m43),
        (m.m21, m.m34, m.m43),
        (m.m23, m.m31, m.m44),
        (m.m21, m.m33, m.m44),
    )
    &&& cofactor_even_fits::<T>(
        d,
        (m.m13, m.m34, m.m41),
        (m.m14, m.m33, m.m41),
        (m.m14, m.m31, m.m43),
        (m.m11, m.m34, m.m43),
        (m.m13, m.m31, m.m44),
        (m.m11, m.m33, m.m44),
    )
    &&& cofactor_odd_fits::<T>(
        d,
        (m.m14, m.m23, m.m41),
        (m.m13, m.m24, m.m41),
        (m.m14, m.m21, m.m43),
        (m.m11, m.m24, m.m43),
        (m.m13, m.m21, m.m44),
        (m.m11, m.m23, m.m44),
    )
    &&& cofactor_even_fits::<T>(
        d,
        (m.m13, m.m24, m.m31),
        (m.m14, m.m23, m.m31),
        (m.m14, m.m21, m.m33),
        (m.m11, m.m24, m.m33),
        (m.m13, m.m21, m.m34),
        (m.m11, m.m23, m.m34),
    )
    &&& cofactor_even_fits::<T>(
        d,
        (m.m22, m.m34, m.m41),
        (m.m24, m.m32, m.m41),
        (m.m24, m.m31, m.m42),
        (m.m21, m.m34, m.m42),
        (m.m22, m.m31, m.m44),
        (m.m21, m.m32, m.m44),
    )
    &&& cofactor_odd_fits::<T>(
        d,
        (m.m14, m.m32, m.m41),
        (m.m12, m.m34, m.m41),
        (m.m14, m.m31, m.m42),
        (m.m11, m.m34, m.m42),
        (m.m12, m.m31, m.m44),
        (m.m11, m.m32, m.m44),
    )
    &&& cofactor_even_fits::<T>(
        d,
        (m.m12, m.m24, m.m41),
        (m.m14, m.m22, m.m41),
        (m.m14, m.m21, m.m42),
        (m.m11, m.m24, m.m42),
        (m.m12, m.m21, m.m44),
        (m.m11, m.m22, m.m44),
    )
    &&& cofactor_odd_fits::<T>(
        d,
        (m.m14, m.m22, m.m31),
        (m.m12, m.m24, m.m31),
        (m.m14, m.m21, m.m32),
        (m.m11, m.m24, m.m32),
        (m.m12, m.m21, m.m34),
        (m.m11, m.m22, m.m34),
    )
    &&& cofactor_odd_fits::<T>(
        d,
        (m.m23, m.m32, m.m41),
        (m.m22, m.m33, m.m41),
        (m.m23, m.m31, m.m42),
        (m.m21, m.m33, m.m42),
        (m.m22, m.m31, m.m43),
        (m.m21, m.m32, m.m43),
    )
    &&& cofactor_even_fits::<T>(
        d,
        (m.m12, m.m33, m.m41),
        (m.m13, m.m32, m.m41),
        (m.m13, m.m31, m.m42),
        (m.m11, m.m33, m.m42),
        (m.m12, m.m31, m.m43),
        (m.m11, m.m32, m.m43),
    )
    &&& cofactor_odd_fits::<T>(
        d,
        (m.m13, m.m22, m.m41),
        (m.m12, m.m23, m.m41),
        (m.m13, m.m21, m.m42),
        (m.m11, m.m23, m.m42),
        (m.m12, m.m21, m.m43),
        (m.m11, m.m22, m.m43),
    )
    &&& cofactor_even_fits::<T>(
        d,
        (m.m12, m.m23, m.m31),
        (m.m13, m.m22, m.m31),
        (m.m13, m.m21, m.m32),
        (m.m11, m.m23, m.m32),
        (m.m12, m.m21, m.m33),
        (m.m11, m.m22, m.m33),
    )
}

/// The product `a * b` can be computed in `T`, each entry as a four-term dot
/// product summed left to right.
pub open spec fn mat4_mul_fits<T: Scalar>(a: Mat4, b: Mat4) -> bool {
    &&& dot4_fits::<T>(a.m11, b.m11, a.m12, b.m21, a.m13, b.m31, a.m14, b.m41)
    &&& dot4_fits::<T>(a.m11, b.m12, a.m12, b.m22, a.m13, b.m32, a.m14, b.m42)
    &&& dot4_fits::<T>(a.m11, b.m13, a.m12, b.m23, a.m13, b.m33, a.m14, b.m43)
    &&& dot4_fits::<T>(a.m11, b.m14, a.m12, b.m24, a.m13, b.m34, a.m14, b.m44)
    &&& dot4_fits::<T>(a.m21, b.m11, a.m22, b.m21, a.m23, b.m31, a.m24, b.m41)
    &&& dot4_fits::<T>(a.m21, b.m12, a.m22, b.m22, a.m23, b.m32, a.m24, b.m42)
    &&& dot4_fits::<T>(a.m21, b.m13, a.m22, b.m23, a.m23, b.m33, a.m24, b.m43)
    &&& dot4_fits::<T>(a.m21, b.m14, a.m22, b.m24, a.m23, b.m34, a.m24, b.m44)
    &&& dot4_fits::<T>(a.m31, b.m11, a.m32, b.m21, a.m33, b.m31, a.m34, b.m41)
    &&& dot4_fits::<T>(a.m31, b.m12, a.m32, b.m22, a.m33, b.m32, a.m34, b.m42)
    &&& dot4_fits::<T>(a.m31, b.m13, a.m32, b.m23, a.m33, b.m33, a.m34, b.m43)
    &&& dot4_fits::<T>(a.m31, b.m14, a.m32, b.m24, a.m33, b.m34, a.m34, b.m44)
    &&& dot4_fits::<T>(a.m41, b.m11, a.m42, b.m21, a.m43, b.m31, a.m44, b.m41)
    &&& dot4_fits::<T>(a.m41, b.m12, a.m42, b.m22, a.m43, b.m32, a.m44, b.m42)
    &&& dot4_fits::<T>(a.m41, b.m13, a.m42, b.m23, a.m43, b.m33, a.m44, b.m43)
    &&& dot4_fits::<T>(a.m41, b.m14, a.m42, b.m24, a.m43, b.m34, a.m44, b.m44)
}

/// The image of the point `p` under `m` can be computed in `T`.
pub open spec fn apply_point3_fits<T: Scalar>(m: Mat4, p: Vec3) -> bool {
    &&& dot3_fits::<T>(p.x, m.m11, p.y, m.m21, p.z, m.m31)
    &&& T::fits(p.x * m.m11 + p.y * m.m21 + p.z * m.m31 + m.m41)
    &&& dot3_fits::<T>(p.x, m.m12, p.y, m.m22, p.z, m.m32)
    &&& T::fits(p.x * m.m12 + p.y * m.m22 + p.z * m.m32 + m.m42)
    &&& dot3_fits::<T>(p.x, m.m13, p.y, m.m23, p.z, m.m33)
    &&& T::fits(p.x * m.m13 + p.y * m.m23 + p.z * m.m33 + m.m43)
    &&& dot3_fits::<T>(p.x, m.m14, p.y, m.m24, p.z, m.m34)
    &&& T::fits(p.x * m.m14 + p.y * m.m24 + p.z * m.m34 + m.m44)
}

/// The image of the direction `v` under `m` can be computed in `T`.
pub open spec fn apply_vector3_fits<T: Scalar>(m: Mat4, v: Vec3) -> bool {
    &&& dot3_fits::<T>(v.x, m.m11, v.y, m.m21, v.z, m.m31)
    &&& dot3_fits::<T>(v.x, m.m12, v.y, m.m22, v.z, m.m32)
    &&& dot3_fits::<T>(v.x, m.m13, v.y, m.m23, v.z, m.m33)
}

/// The image of the covector `n` under the transpose of `m` can be computed in `T`.
pub open spec fn apply_transposed3_fits<T: Scalar>(m: Mat4, n: Vec3) -> bool {
    &&& dot3_fits::<T>(n.x, m.m11, n.y, m.m12, n.z, m.m13)
    &&& dot3_fits::<T>(n.x, m.m21, n.y, m.m22, n.z, m.m23)
    &&& dot3_fits::<T>(n.x, m.m31, n.y, m.m32, n.z, m.m33)
}

/// The eight corners of the box from `lo` to `hi`, in the order in which a
/// transformed box is fitted around their images.
pub open spec fn corners3(lo: Vec3, hi: Vec3) -> Seq<Vec3> {
    seq![
        lo,
        Vec3 { x: lo.x, y: lo.y, z: hi.z },
        Vec3 { x: lo.x, y: hi.y, z: lo.z },
        Vec3 { x: lo.x, y: hi.y, z: hi.z },
        Vec3 { x: hi.x, y: lo.y, z: lo.z },
        Vec3 { x: hi.x, y: lo.y, z: hi.z },
        Vec3 { x: hi.x, y: hi.y, z: lo.z },
        hi,
    ]
}

/// The matrix of the rotation a quaternion stands for.
pub open spec fn mat4_of_quat(q: Quat) -> Mat4 {
    Mat4 {
        m11: 1 - 2 * (q.j * q.j + q.k * q.k),
        m12: 2 * (q.i * q.j + q.a * q.k),
        m13: 2 * (q.i * q.k - q.a * q.j),
        m14: 0,
        m21: 2 * (q.i * q.j - q.a * q.k),
        m22: 1 - 2 * (q.i * q.i + q.k * q.k),
        m23: 2 * (q.j * q.k + q.a * q.i),
        m24: 0,
        m31: 2 * (q.i * q.k + q.a * q.j),
        m32: 2 * (q.j * q.k - q.a * q.i),
        m33: 1 - 2 * (q.i * q.i + q.j * q.j),
        m34: 0,
        m41: 0,
        m42: 0,
        m43: 0,
        m44: 1,
    }
}

/// The matrix of a quaternion can be computed in `T`: the doubled vector
/// part, its products with each part, and the sums of those.
pub open spec fn quat_matrix_fits<T: Scalar>(q: Quat) -> bool {
    let v2 = q.vector_part().add(q.vector_part());
    &&& v2.fits::<T>()
    &&& v2.scale(q.i).fits::<T>()
    &&& v2.scale(q.j).fits::<T>()
    &&& T::fits(q.k * v2.z)
    &&& v2.scale(q.a).fits::<T>()
    &&& T::fits(v2.y * q.j + q.k * v2.z)
    &&& T::fits(v2.x * q.i + q.k * v2.z)
    &&& T::fits(v2.x * q.i + v2.y * q.j)
    &&& mat4_of_quat(q).fits::<T>()
}

/// The orthographic projection of the box between the given planes onto the
/// cube from -1 to 1 across and 0 to 1 in depth, for a left-handed frame:
/// `x` is scaled by `2 / (right - left)` and moved by
/// `-(left + right) / (right - left)`, likewise `y`, and `z` is scaled by
/// `1 / (far - near)` and moved by `-near / (far - near)`. Every quotient
/// rounds toward zero.
pub open spec fn orthographic_lh_spec(
    left: int,
    right: int,
    bottom: int,
    top: int,
    near: int,
    far: int,
) -> Mat4 {
    Mat4 {
        m11: trunc_div(2, right - left), m12: 0, m13: 0, m14: 0,
        m21: 0, m22: trunc_div(2, top - bottom), m23: 0, m24: 0,
        m31: 0, m32: 0, m33: trunc_div(1, far - near), m34: 0,
        m41: 0 - trunc_div(left + right, right - left),
        m42: 0 - trunc_div(top + bottom, top - bottom),
        m43: 0 - trunc_div(near, far - near),
        m44: 1,
    }
}

/// The orthographic projection for a right-handed frame: depth runs the other
/// way, so `z` is scaled by `1 / (near - far)` and moved by
/// `near / (near - far)`.
pub open spec fn orthographic_rh_spec(
    left: int,
    right: int,
    bottom: int,
    top: int,
    near: int,
    far: int,
) -> Mat4 {
    Mat4 {
        m11: trunc_div(2, right - left), m12: 0, m13: 0, m14: 0,
        m21: 0, m22: trunc_div(2, top - bottom), m23: 0, m24: 0,
        m31: 0, m32: 0, m33: trunc_div(1, near - far), m34: 0,
        m41: 0 - trunc_div(left + right, right - left),
        m42: 0 - trunc_div(top + bottom, top - bottom),
        m43: trunc_div(near, near - far),
        m44: 1,
    }
}

/// The entries of an orthographic projection can be computed in `T`. `depth`
/// is `far - near` for a left-handed frame and `near - far` for a
/// right-handed one.
pub open spec fn orthographic_fits<T: Scalar>(
    left: int,
    right: int,
    bottom: int,
    top: int,
    near: int,
    depth: int,
) -> bool {
    &&& T::fits(2)
    &&& T::fits(right - left) && right - left != 0
    &&& T::fits(top - bottom) && top - bottom != 0
    &&& T::fits(depth) && depth != 0
    &&& T::fits(trunc_div(2, right - left))
    &&& T::fits(trunc_div(2, top - bottom))
    &&& T::fits(trunc_div(1, depth))
    &&& T::fits(left + right)
    &&& T::fits(trunc_div(left + right, right - left))
    &&& T::fits(0 - trunc_div(left + right, right - left))
    &&& T::fits(top + bottom)
    &&& T::fits(trunc_div(top + bottom, top - bottom))
    &&& T::fits(0 - trunc_div(top + bottom, top - bottom))
    &&& T::fits(trunc_div(near, depth))
    &&& T::fits(0 - trunc_div(near, depth))
}

/// The matrix of the rotation about the unit vector `axis` whose half angle
/// has sine `s` and cosine `c`.
pub open spec fn rotation3_spec(axis: Vec3, s: int, c: int) -> Mat4 {
    let x = axis.x;
    let y = axis.y;
    let z = axis.z;
    let sc = s * c;
    let ss = s * s;
    Mat4 {
        m11: 1 - 2 * (y * y + z * z) * ss,
        m12: 2 * (x * y * ss + z * sc),
        m13: 2 * (x * z * ss - y * sc),
        m14: 0,
        m21: 2 * (x * y * ss - z * sc),
        m22: 1 - 2 * (x * x + z * z) * ss,
        m23: 2 * (y * z * ss + x * sc),
        m24: 0,
        m31: 2 * (x * z * ss + y * sc),
        m32: 2 * (y * z * ss - x * sc),
        m33: 1 - 2 * (x * x + y * y) * ss,
        m34: 0,
        m41: 0,
        m42: 0,
        m43: 0,
        m44: 1,
    }
}

/// `1 - 2 * (p + q) * ss` can be evaluated left to right in `T`.
pub open spec fn rotation_diagonal_fits<T: Scalar>(p: int, q: int, ss: int) -> bool {
    &&& T::fits(p + q)
    &&& T::fits(2 * (p + q))
    &&& T::fits(2 * (p + q) * ss)
    &&& T::fits(1 - 2 * (p + q) * ss)
}

/// Both `2 * (a * b * ss + c * sc)` and `2 * (a * b * ss - c * sc)` can be
/// evaluated left to right in `T`.
pub open spec fn rotation_pair_fits<T: Scalar>(a: int, b: int, ss: int, c: int, sc: int) -> bool {
    &&& T::fits(a * b)
    &&& T::fits(a * b * ss)
    &&& T::fits(c * sc)
    &&& T::fits(a * b * ss + c * sc)
    &&& T::fits(a * b * ss - c * sc)
    &&& T::fits(2 * (a * b * ss + c * sc))
    &&& T::fits(2 * (a * b * ss - c * sc))
}

/// The rotation matrix for `axis`, `s` and `c` can be computed in `T`.
pub open spec fn rotation3_fits<T: Scalar>(axis: Vec3, s: int, c: int) -> bool {
    let x = axis.x;
    let y = axis.y;
    let z = axis.z;
    &&& T::fits(2)
    &&& T::fits(x * x)
    &&& T::fits(y * y)
    &&& T::fits(z * z)
    &&& T::fits(s * c)
    &&& T::fits(s * s)
    &&& rotation_diagonal_fits::<T>(y * y, z * z, s * s)
    &&& rotation_diagonal_fits::<T>(x * x, z * z, s * s)
    &&& rotation_diagonal_fits::<T>(x * x, y * y, s * s)
    &&& rotation_pair_fits::<T>(x, y, s * s, z, s * c)
    &&& rotation_pair_fits::<T>(x, z, s * s, y, s * c)
    &&& rotation_pair_fits::<T>(y, z, s * s, x, s * c)
}

/// The perspective projection for a left-handed frame, from the sine `s` and
/// cosine `c` of half the vertical field of view, the aspect ratio, and the
/// near and far planes. Quotients round toward zero.
pub open spec fn perspective_lh_spec(s: int, c: int, aspect: int, near: int, far: int) -> Mat4 {
    let h = trunc_div(c, s);
    let w = trunc_div(h, aspect);
    let r = trunc_div(far, far - near);
    Mat4 {
        m11: w, m12: 0, m13: 0, m14: 0,
        m21: 0, m22: h, m23: 0, m24: 0,
        m31: 0, m32: 0, m33: r, m34: 1,
        m41: 0, m42: 0, m43: (0 - r) * near, m44: 0,
    }
}

/// The perspective projection for a right-handed frame.
pub open spec fn perspective_rh_spec(s: int, c: int, aspect: int, near: int, far: int) -> Mat4 {
    let h = trunc_div(c, s);
    let w = trunc_div(h, aspect);
    let r = trunc_div(far, near - far);
    Mat4 {
        m11: w, m12: 0, m13: 0, m14: 0,
        m21: 0, m22: h, m23: 0, m24: 0,
        m31: 0, m32: 0, m33: r, m34: -1,
        m41: 0, m42: 0, m43: r * near, m44: 0,
    }
}

/// The entries of a perspective projection can be computed in `T`. `depth` is
/// `far - near` for a left-handed frame and `near - far` for a right-handed
/// one.
pub open spec fn perspective_fits<T: Scalar>(
    s: int,
    c: int,
    aspect: int,
    far: int,
    depth: int,
) -> bool {
    let h = trunc_div(c, s);
    &&& s != 0
    &&& T::fits(h)
    &&& aspect != 0
    &&& T::fits(trunc_div(h, aspect))
    &&& T::fits(depth)
    &&& depth != 0
    &&& T::fits(trunc_div(far, depth))
}

/// The view matrix of a camera at `eye` for a right-handed frame, from its
/// unit forward vector `f` and unit right vector `s`; the up vector is their
/// cross product.
pub open spec fn look_to_rh_spec(eye: Vec3, f: Vec3, s: Vec3) -> Mat4 {
    let u = s.cross(f);
    Mat4 {
        m11: s.x, m12: u.x, m13: -f.x, m14: 0,
        m21: s.y, m22: u.y, m23: -f.y, m24: 0,
        m31: s.z, m32: u.z, m33: -f.z, m34: 0,
        m41: -eye.dot(s), m42: -eye.dot(u), m43: eye.dot(f), m44: 1,
    }
}

/// The view matrix for `eye`, `f` and `s` can be computed in `T`.
pub open spec fn look_to_rh_fits<T: Scalar>(eye: Vec3, f: Vec3, s: Vec3) -> bool {
    let u = s.cross(f);
    &&& s.cross_fits::<T>(f)
    &&& f.neg().fits::<T>()
    &&& dot3_fits::<T>(eye.x, s.x, eye.y, s.y, eye.z, s.z)
    &&& dot3_fits::<T>(eye.x, u.x, eye.y, u.y, eye.z, u.z)
    &&& dot3_fits::<T>(eye.x, f.x, eye.y, f.y, eye.z, f.z)
    &&& T::fits(-eye.dot(s))
    &&& T::fits(-eye.dot(u))
}

/// A matrix with the given entries can be made into a transform: its
/// determinant is not zero and its inverse can be computed in `T`.
pub open spec fn invertible_in<T: Scalar>(m: Mat4) -> bool {
    det_fits::<T>(m) && m.det() != 0 && inverse_fits::<T>(m)
}

/// Doubling one factor doubles the product.
pub proof fn lemma_double_product(x: int, y: int)
    by (nonlinear_arith)
    ensures
        (x + x) * y == 2 * (x * y),
        y * (x + x) == 2 * (x * y),
        x * y == y * x,
{
}

/// The 24-term expansion is the determinant.
pub proof fn lemma_det_expanded(m: Mat4)
    ensures
        det_expanded(m) == m.det(),
{
    lemma_signed_minor(m.m12, m.m13, m.m14, m.m22, m.m23, m.m24, m.m32, m.m33, m.m34, m.m41);
    lemma_signed_minor(m.m11, m.m13, m.m14, m.m21, m.m23, m.m24, m.m31, m.m33, m.m34, m.m42);
    lemma_signed_minor(m.m11, m.m12, m.m14, m.m21, m.m22, m.m24, m.m31, m.m32, m.m34, m.m43);
    lemma_signed_minor(m.m11, m.m12, m.m13, m.m21, m.m22, m.m23, m.m31, m.m32, m.m33, m.m44);
}

/// The six-term expansions are the entries of the adjugate.
pub proof fn lemma_adjugate_expanded(m: Mat4)
    ensures
        adjugate_expanded(m) == m.adjugate(),
{
    lemma_det3_expanded(m.m22, m.m23, m.m24, m.m32, m.m33, m.m34, m.m42, m.m43, m.m44);
    lemma_det3_expanded(m.m12, m.m13, m.m14, m.m32, m.m33, m.m34, m.m42, m.m43, m.m44);
    lemma_det3_expanded(m.m12, m.m13, m.m14, m.m22, m.m23, m.m24, m.m42, m.m43, m.m44);
    lemma_det3_expanded(m.m12, m.m13, m.m14, m.m22, m.m23, m.m24, m.m32, m.m33, m.m34);
    lemma_det3_expanded(m.m21, m.m23, m.m24, m.m31, m.m33, m.m34, m.m41, m.m43, m.m44);
    lemma_det3_expanded(m.m11, m.m13, m.m14, m.m31, m.m33, m.m34, m.m41, m.m43, m.m44);
    lemma_det3_expanded(m.m11, m.m13, m.m14, m.m21, m.m23, m.m24, m.m41, m.m43, m.m44);
    lemma_det3_expanded(m.m11, m.m13, m.m14, m.m21, m.m23, m.m24, m.m31, m.m33, m.m34);
    lemma_det3_expanded(m.m21, m.m22, m.m24, m.m31, m.m32, m.m34, m.m41, m.m42, m.m44);
    lemma_det3_expanded(m.m11, m.m12, m.m14, m.m31, m.m32, m.m34, m.m41, m.m42, m.m44);
    lemma_det3_expanded(m.m11, m.m12, m.m14, m.m21, m.m22, m.m24, m.m41, m.m42, m.m44);
    lemma_det3_expanded(m.m11, m.m12, m.m14, m.m21, m.m22, m.m24, m.m31, m.m32, m.m34);
    lemma_det3_expanded(m.m21, m.m22, m.m23, m.m31, m.m32, m.m33, m.m41, m.m42, m.m43);
    lemma_det3_expanded(m.m11, m.m12, m.m13, m.m31, m.m32, m.m33, m.m41, m.m42, m.m43);
    lemma_det3_expanded(m.m11, m.m12, m.m13, m.m21, m.m22, m.m23, m.m41, m.m42, m.m43);
    lemma_det3_expanded(m.m11, m.m12, m.m13, m.m21, m.m22, m.m23, m.m31, m.m32, m.m33);
}

/// A factor put in front of a triple product can be moved to any place in it.
proof fn lemma_insert_factor(k: int, x: int, y: int, z: int)
    by (nonlinear_arith)
    ensures
        k * (x * y * z) == k * x * y * z,
        k * (x * y * z) == x * k * y * z,
        k * (x * y * z) == x * y * k * z,
        k * (x * y * z) == x * y * z * k,
{
}

/// A product with a negated factor is the negated product, and a product
/// does not depend on the order of its two factors.
pub proof fn lemma_mul_negated(k: int, d: int)
    by (nonlinear_arith)
    ensures
        k * (-d) == -(k * d),
        (-d) * k == -(k * d),
        d * k == k * d,
{
}

/// A factor `k` times a 3x3 determinant, written as the six signed products
/// of the determinant with `k` put in as the first factor of each.
proof fn lemma_minor_with_first_factor(
    k: int,
    a: int,
    b: int,
    c: int,
    d: int,
    e: int,
    f: int,
    g: int,
    h: int,
    i: int,
)
    ensures
        k * det3(a, b, c, d, e, f, g, h, i) == k * a * e * i - k * a * f * h - k * b * d * i
            + k * b * f * g + k * c * d * h - k * c * e * g,
        k * (-det3(a, b, c, d, e, f, g, h, i)) == -(k * a * e * i - k * a * f * h - k * b * d * i + k * b * f * g + k * c * d * h - k * c * e * g),
        det3(a, b, c, d, e, f, g, h, i) * k == k * a * e * i - k * a * f * h - k * b * d * i
            + k * b * f * g + k * c * d * h - k * c * e * g,
        (-det3(a, b, c, d, e, f, g, h, i)) * k == -(k * a * e * i - k * a * f * h - k * b * d * i + k * b * f * g + k * c * d * h - k * c * e * g),
{
    lemma_det3_expanded(a, b, c, d, e, f, g, h, i);
    lemma_mul_congruent(
        k,
        det3(a, b, c, d, e, f, g, h, i),
        a * e * i - a * f * h - b * d * i + b * f * g + c * d * h - c * e * g,
    );
    lemma_distribute6(k, a * e * i, a * f * h, b * d * i, b * f * g, c * d * h, c * e * g);
    lemma_insert_factor(k, a, e, i);
    lemma_insert_factor(k, a, f, h);
    lemma_insert_factor(k, b, d, i);
    lemma_insert_factor(k, b, f, g);
    lemma_insert_factor(k, c, d, h);
    lemma_insert_factor(k, c, e, g);
    lemma_mul_negated(k, det3(a, b, c, d, e, f, g, h, i));
}

/// A factor `k` times a 3x3 determinant, written as the six signed products
/// of the determinant with `k` put in as the second factor of each.
proof fn lemma_minor_with_second_factor(
    k: int,
    a: int,
    b: int,
    c: int,
    d: int,
    e: int,
    f: int,
    g: int,
    h: int,
    i: int,
)
    ensures
        k * det3(a, b, c, d, e, f, g, h, i) == a * k * e * i - a * k * f * h - b * k * d * i
            + b * k * f * g + c * k * d * h - c * k * e * g,
        k * (-det3(a, b, c, d, e, f, g, h, i)) == -(a * k * e * i - a * k * f * h - b * k * d * i + b * k * f * g + c * k * d * h - c * k * e * g),
        det3(a, b, c, d, e, f, g, h, i) * k == a * k * e * i - a * k * f * h - b * k * d * i
            + b * k * f * g + c * k * d * h - c * k * e * g,
        (-det3(a, b, c, d, e, f, g, h, i)) * k == -(a * k * e * i - a * k * f * h - b * k * d * i + b * k * f * g + c * k * d * h - c * k * e * g),
{
    lemma_det3_expanded(a, b, c, d, e, f, g, h, i);
    lemma_mul_congruent(
        k,
        det3(a, b, c, d, e, f, g, h, i),
        a * e * i - a * f * h - b * d * i + b * f * g + c * d * h - c * e * g,
    );
    lemma_distribute6(k, a * e * i, a * f * h, b * d * i, b * f * g, c * d * h, c * e * g);
    lemma_insert_factor(k, a, e, i);
    lemma_insert_factor(k, a, f, h);
    lemma_insert_factor(k, b, d, i);
    lemma_insert_factor(k, b, f, g);
    lemma_insert_factor(k, c, d, h);
    lemma_insert_factor(k, c, e, g);
    lemma_mul_negated(k, det3(a, b, c, d, e, f, g, h, i));
}

/// A factor `k` times a 3x3 determinant, written as the six signed products
/// of the determinant with `k` put in as the third factor of each.
proof fn lemma_minor_with_third_factor(
    k: int,
    a: int,
    b: int,
    c: int,
    d: int,
    e: int,
    f: int,
    g: int,
    h: int,
    i: int,
)
    ensures
        k * det3(a, b, c, d, e, f, g, h, i) == a * e * k * i - a * f * k * h - b * d * k * i
            + b * f * k * g + c * d * k * h - c * e * k * g,
        k * (-det3(a, b, c, d, e, f, g, h, i)) == -(a * e * k * i - a * f * k * h - b * d * k * i + b * f * k * g + c * d * k * h - c * e * k * g),
        det3(a, b, c, d, e, f, g, h, i) * k == a * e * k * i - a * f * k * h - b * d * k * i
            + b * f * k * g + c * d * k * h - c * e * k * g,
        (-det3(a, b, c, d, e, f, g, h, i)) * k == -(a * e * k * i - a * f * k * h - b * d * k * i + b * f * k * g + c * d * k * h - c * e * k * g),
{
    lemma_det3_expanded(a, b, c, d, e, f, g, h, i);
    lemma_mul_congruent(
        k,
        det3(a, b, c, d, e, f, g, h, i),
        a * e * i - a * f * h - b * d * i + b * f * g + c * d * h - c * e * g,
    );
    lemma_distribute6(k, a * e * i, a * f * h, b * d * i, b * f * g, c * d * h, c * e * g);
    lemma_insert_factor(k, a, e, i);
    lemma_insert_factor(k, a, f, h);
    lemma_insert_factor(k, b, d, i);
    lemma_insert_factor(k, b, f, g);
    lemma_insert_factor(k, c, d, h);
    lemma_insert_factor(k, c, e, g);
    lemma_mul_negated(k, det3(a, b, c, d, e, f, g, h, i));
}

/// A factor `k` times a 3x3 determinant, written as the six signed products
/// of the determinant with `k` put in as the fourth factor of each.
proof fn lemma_minor_with_fourth_factor(
    k: int,
    a: int,
    b: int,
    c: int,
    d: int,
    e: int,
    f: int,
    g: int,
    h: int,
    i: int,
)
    ensures
        k * det3(a, b, c, d, e, f, g, h, i) == a * e * i * k - a * f * h * k - b * d * i * k
            + b * f * g * k + c * d * h * k - c * e * g * k,
        k * (-det3(a, b, c, d, e, f, g, h, i)) == -(a * e * i * k - a * f * h * k - b * d * i * k + b * f * g * k + c * d * h * k - c * e * g * k),
        det3(a, b, c, d, e, f, g, h, i) * k == a * e * i * k - a * f * h * k - b * d * i * k
            + b * f * g * k + c * d * h * k - c * e * g * k,
        (-det3(a, b, c, d, e, f, g, h, i)) * k == -(a * e * i * k - a * f * h * k - b * d * i * k + b * f * g * k + c * d * h * k - c * e * g * k),
{
    lemma_det3_expanded(a, b, c, d, e, f, g, h, i);
    lemma_mul_congruent(
        k,
        det3(a, b, c, d, e, f, g, h, i),
        a * e * i - a * f * h - b * d * i + b * f * g + c * d * h - c * e * g,
    );
    lemma_distribute6(k, a * e * i, a * f * h, b * d * i, b * f * g, c * d * h, c * e * g);
    lemma_insert_factor(k, a, e, i);
    lemma_insert_factor(k, a, f, h);
    lemma_insert_factor(k, b, d, i);
    lemma_insert_factor(k, b, f, g);
    lemma_insert_factor(k, c, d, h);
    lemma_insert_factor(k, c, e, g);
    lemma_mul_negated(k, det3(a, b, c, d, e, f, g, h, i));
}

/// Row 1 of a matrix times its adjugate is row 1 of the identity scaled by
/// the determinant.
proof fn lemma_times_adjugate_row1(m: Mat4)
    ensures
        m.mul(m.adjugate()).row1() == Mat4::identity().scale(m.det()).row1(),
{
    lemma_det_expanded(m);
    lemma_minor_with_first_factor(
        m.m11,
        m.m22,
        m.m23,
        m.m24,
        m.m32,
        m.m33,
        m.m34,
        m.m42,
        m.m43,
        m.m44,
    );
    lemma_minor_with_first_factor(
        m.m12,
        m.m21,
        m.m23,
        m.m24,
        m.m31,
        m.m33,
        m.m34,
        m.m41,
        m.m43,
        m.m44,
    );
    lemma_minor_with_first_factor(
        m.m13,
        m.m21,
        m.m22,
        m.m24,
        m.m31,
        m.m32,
        m.m34,
        m.m41,
        m.m42,
        m.m44,
    );
    lemma_minor_with_first_factor(
        m.m14,
        m.m21,
        m.m22,
        m.m23,
        m.m31,
        m.m32,
        m.m33,
        m.m41,
        m.m42,
        m.m43,
    );
    lemma_minor_with_first_factor(
        m.m11,
        m.m12,
        m.m13,
        m.m14,
        m.m32,
        m.m33,
        m.m34,
        m.m42,
        m.m43,
        m.m44,
    );
    lemma_minor_with_second_factor(
        m.m11,
        m.m12,
        m.m13,
        m.m14,
        m.m32,
        m.m33,
        m.m34,
        m.m42,
        m.m43,
        m.m44,
    );
    lemma_minor_with_first_factor(
        m.m12,
        m.m11,
        m.m13,
        m.m14,
        m.m31,
        m.m33,
        m.m34,
        m.m41,
        m.m43,
        m.m44,
    );
    lemma_minor_with_second_factor(
        m.m12,
        m.m11,
        m.m13,
        m.m14,
        m.m31,
        m.m33,
        m.m34,
        m.m41,
        m.m43,
        m.m44,
    );
    lemma_minor_with_first_factor(
        m.m13,
        m.m11,
        m.m12,
        m.m14,
        m.m31,
        m.m32,
        m.m34,
        m.m41,
        m.m42,
        m.m44,
    );
    lemma_minor_with_second_factor(
        m.m13,
        m.m11,
        m.m12,
        m.m14,
        m.m31,
        m.m32,
        m.m34,
        m.m41,
        m.m42,
        m.m44,
    );
    lemma_minor_with_first_factor(
        m.m14,
        m.m11,
        m.m12,
        m.m13,
        m.m31,
        m.m32,
        m.m33,
        m.m41,
        m.m42,
        m.m43,
    );
    lemma_minor_with_second_factor(
        m.m14,
        m.m11,
        m.m12,
        m.m13,
        m.m31,
        m.m32,
        m.m33,
        m.m41,
        m.m42,
        m.m43,
    );
    lemma_minor_with_first_factor(
        m.m11,
        m.m12,
        m.m13,
        m.m14,
        m.m22,
        m.m23,
        m.m24,
        m.m42,
        m.m43,
        m.m44,
    );
    lemma_minor_with_second_factor(
        m.m11,
        m.m12,
        m.m13,
        m.m14,
        m.m22,
        m.m23,
        m.m24,
        m.m42,
        m.m43,
        m.m44,
    );
    lemma_minor_with_first_factor(
        m.m12,
        m.m11,
        m.m13,
        m.m14,
        m.m21,
        m.m23,
        m.m24,
        m.m41,
        m.m43,
        m.m44,
    );
    lemma_minor_with_second_factor(
        m.m12,
        m.m11,
        m.m13,
        m.m14,
        m.m21,
        m.m23,
        m.m24,
        m.m41,
        m.m43,
        m.m44,
    );
    lemma_minor_with_first_factor(
        m.m13,
        m.m11,
        m.m12,
        m.m14,
        m.m21,
        m.m22,
        m.m24,
        m.m41,
        m.m42,
        m.m44,
    );
    lemma_minor_with_second_factor(
        m.m13,
        m.m11,
        m.m12,
        m.m14,
        m.m21,
        m.m22,
        m.m24,
        m.m41,
        m.m42,
        m.m44,
    );
    lemma_minor_with_first_factor(
        m.m14,
        m.m11,
        m.m12,
        m.m13,
        m.m21,
        m.m22,
        m.m23,
        m.m41,
        m.m42,
        m.m43,
    );
    lemma_minor_with_second_factor(
        m.m14,
        m.m11,
        m.m12,
        m.m13,
        m.m21,
        m.m22,
        m.m23,
        m.m41,
        m.m42,
        m.m43,
    );
    lemma_minor_with_first_factor(
        m.m11,
        m.m12,
        m.m13,
        m.m14,
        m.m22,
        m.m23,
        m.m24,
        m.m32,
        m.m33,
        m.m34,
    );
    lemma_minor_with_second_factor(
        m.m11,
        m.m12,
        m.m13,
        m.m14,
        m.m22,
        m.m23,
        m.m24,
        m.m32,
        m.m33,
        m.m34,
    );
    lemma_minor_with_first_factor(
        m.m12,
        m.m11,
        m.m13,
        m.m14,
        m.m21,
        m.m23,
        m.m24,
        m.m31,
        m.m33,
        m.m34,
    );
    lemma_minor_with_second_factor(
        m.m12,
        m.m11,
        m.m13,
        m.m14,
        m.m21,
        m.m23,
        m.m24,
        m.m31,
        m.m33,
        m.m34,
    );
    lemma_minor_with_first_factor(
        m.m13,
        m.m11,
        m.m12,
        m.m14,
        m.m21,
        m.m22,
        m.m24,
        m.m31,
        m.m32,
        m.m34,
    );
    lemma_minor_with_second_factor(
        m.m13,
        m.m11,
        m.m12,
        m.m14,
        m.m21,
        m.m22,
        m.m24,
        m.m31,
        m.m32,
        m.m34,
    );
    lemma_minor_with_first_factor(
        m.m14,
        m.m11,
        m.m12,
        m.m13,
        m.m21,
        m.m22,
        m.m23,
        m.m31,
        m.m32,
        m.m33,
    );
    lemma_minor_with_second_factor(
        m.m14,
        m.m11,
        m.m12,
        m.m13,
        m.m21,
        m.m22,
        m.m23,
        m.m31,
        m.m32,
        m.m33,
    );
}

/// Row 2 of a matrix times its adjugate is row 2 of the identity scaled by
/// the determinant.
proof fn lemma_times_adjugate_row2(m: Mat4)
    ensures
        m.mul(m.adjugate()).row2() == Mat4::identity().scale(m.det()).row2(),
{
    lemma_det_expanded(m);
    lemma_minor_with_first_factor(
        m.m21,
        m.m22,
        m.m23,
        m.m24,
        m.m32,
        m.m33,
        m.m34,
        m.m42,
        m.m43,
        m.m44,
    );
    lemma_minor_with_second_factor(
        m.m21,
        m.m22,
        m.m23,
        m.m24,
        m.m32,
        m.m33,
        m.m34,
        m.m42,
        m.m43,
        m.m44,
    );
    lemma_minor_with_first_factor(
        m.m22,
        m.m21,
        m.m23,
        m.m24,
        m.m31,
        m.m33,
        m.m34,
        m.m41,
        m.m43,
        m.m44,
    );
    lemma_minor_with_second_factor(
        m.m22,
        m.m21,
        m.m23,
        m.m24,
        m.m31,
        m.m33,
        m.m34,
        m.m41,
        m.m43,
        m.m44,
    );
    lemma_minor_with_first_factor(
        m.m23,
        m.m21,
        m.m22,
        m.m24,
        m.m31,
        m.m32,
        m.m34,
        m.m41,
        m.m42,
        m.m44,
    );
    lemma_minor_with_second_factor(
        m.m23,
        m.m21,
        m.m22,
        m.m24,
        m.m31,
        m.m32,
        m.m34,
        m.m41,
        m.m42,
        m.m44,
    );
    lemma_minor_with_first_factor(
        m.m24,
        m.m21,
        m.m22,
        m.m23,
        m.m31,
        m.m32,
        m.m33,
        m.m41,
        m.m42,
        m.m43,
    );
    lemma_minor_with_second_factor(
        m.m24,
        m.m21,
        m.m22,
        m.m23,
        m.m31,
        m.m32,
        m.m33,
        m.m41,
        m.m42,
        m.m43,
    );
    lemma_minor_with_second_factor(
        m.m21,
        m.m12,
        m.m13,
        m.m14,
        m.m32,
        m.m33,
        m.m34,
        m.m42,
        m.m43,
        m.m44,
    );
    lemma_minor_with_second_factor(
        m.m22,
        m.m11,
        m.m13,
        m.m14,
        m.m31,
        m.m33,
        m.m34,
        m.m41,
        m.m43,
        m.m44,
    );
    lemma_minor_with_second_factor(
        m.m23,
        m.m11,
        m.m12,
        m.m14,
        m.m31,
        m.m32,
        m.m34,
        m.m41,
        m.m42,
        m.m44,
    );
    lemma_minor_with_second_factor(
        m.m24,
        m.m11,
        m.m12,
        m.m13,
        m.m31,
        m.m32,
        m.m33,
        m.m41,
        m.m42,
        m.m43,
    );
    lemma_minor_with_second_factor(
        m.m21,
        m.m12,
        m.m13,
        m.m14,
        m.m22,
        m.m23,
        m.m24,
        m.m42,
        m.m43,
        m.m44,
    );
    lemma_minor_with_third_factor(
        m.m21,
        m.m12,
        m.m13,
        m.m14,
        m.m22,
        m.m23,
        m.m24,
        m.m42,
        m.m43,
        m.m44,
    );
    lemma_minor_with_second_factor(
        m.m22,
        m.m11,
        m.m13,
        m.m14,
        m.m21,
        m.m23,
        m.m24,
        m.m41,
        m.m43,
        m.m44,
    );
    lemma_minor_with_third_factor(
        m.m22,
        m.m11,
        m.m13,
        m.m14,
        m.m21,
        m.m23,
        m.m24,
        m.m41,
        m.m43,
        m.m44,
    );
    lemma_minor_with_second_factor(
        m.m23,
        m.m11,
        m.m12,
        m.m14,
        m.m21,
        m.m22,
        m.m24,
        m.m41,
        m.m42,
        m.m44,
    );
    lemma_minor_with_third_factor(
        m.m23,
        m.m11,
        m.m12,
        m.m14,
        m.m21,
        m.m22,
        m.m24,
        m.m41,
        m.m42,
        m.m44,
    );
    lemma_minor_with_second_factor(
        m.m24,
        m.m11,
        m.m12,
        m.m13,
        m.m21,
        m.m22,
        m.m23,
        m.m41,
        m.m42,
        m.m43,
    );
    lemma_minor_with_third_factor(
        m.m24,
        m.m11,
        m.m12,
        m.m13,
        m.m21,
        m.m22,
        m.m23,
        m.m41,
        m.m42,
        m.m43,
    );
    lemma_minor_with_second_factor(
        m.m21,
        m.m12,
        m.m13,
        m.m14,
        m.m22,
        m.m23,
        m.m24,
        m.m32,
        m.m33,
        m.m34,
    );
    lemma_minor_with_third_factor(
        m.m21,
        m.m12,
        m.m13,
        m.m14,
        m.m22,
        m.m23,
        m.m24,
        m.m32,
        m.m33,
        m.m34,
    );
    lemma_minor_with_second_factor(
        m.m22,
        m.m11,
        m.m13,
        m.m14,
        m.m21,
        m.m23,
        m.m24,
        m.m31,
        m.m33,
        m.m34,
    );
    lemma_minor_with_third_factor(
        m.m22,
        m.m11,
        m.m13,
        m.m14,
        m.m21,
        m.m23,
        m.m24,
        m.m31,
        m.m33,
        m.m34,
    );
    lemma_minor_with_second_factor(
        m.m23,
        m.m11,
        m.m12,
        m.m14,
        m.m21,
        m.m22,
        m.m24,
        m.m31,
        m.m32,
        m.m34,
    );
    lemma_minor_with_third_factor(
        m.m23,
        m.m11,
        m.m12,
        m.m14,
        m.m21,
        m.m22,
        m.m24,
        m.m31,
        m.m32,
        m.m34,
    );
    lemma_minor_with_second_factor(
        m.m24,
        m.m11,
        m.m12,
        m.m13,
        m.m21,
        m.m22,
        m.m23,
        m.m31,
        m.m32,
        m.m33,
    );
    lemma_minor_with_third_factor(
        m.m24,
        m.m11,
        m.m12,
        m.m13,
        m.m21,
        m.m22,
        m.m23,
        m.m31,
        m.m32,
        m.m33,
    );
}

/// Row 3 of a matrix times its adjugate is row 3 of the identity scaled by
/// the determinant.
proof fn lemma_times_adjugate_row3(m: Mat4)
    ensures
        m.mul(m.adjugate()).row3() == Mat4::identity().scale(m.det()).row3(),
{
    lemma_det_expanded(m);
    lemma_minor_with_second_factor(
        m.m31,
        m.m22,
        m.m23,
        m.m24,
        m.m32,
        m.m33,
        m.m34,
        m.m42,
        m.m43,
        m.m44,
    );
    lemma_minor_with_third_factor(
        m.m31,
        m.m22,
        m.m23,
        m.m24,
        m.m32,
        m.m33,
        m.m34,
        m.m42,
        m.m43,
        m.m44,
    );
    lemma_minor_with_second_factor(
        m.m32,
        m.m21,
        m.m23,
        m.m24,
        m.m31,
        m.m33,
        m.m34,
        m.m41,
        m.m43,
        m.m44,
    );
    lemma_minor_with_third_factor(
        m.m32,
        m.m21,
        m.m23,
        m.m24,
        m.m31,
        m.m33,
        m.m34,
        m.m41,
        m.m43,
        m.m44,
    );
    lemma_minor_with_second_factor(
        m.m33,
        m.m21,
        m.m22,
        m.m24,
        m.m31,
        m.m32,
        m.m34,
        m.m41,
        m.m42,
        m.m44,
    );
    lemma_minor_with_third_factor(
        m.m33,
        m.m21,
        m.m22,
        m.m24,
        m.m31,
        m.m32,
        m.m34,
        m.m41,
        m.m42,
        m.m44,
    );
    lemma_minor_with_second_factor(
        m.m34,
        m.m21,
        m.m22,
        m.m23,
        m.m31,
        m.m32,
        m.m33,
        m.m41,
        m.m42,
        m.m43,
    );
    lemma_minor_with_third_factor(
        m.m34,
        m.m21,
        m.m22,
        m.m23,
        m.m31,
        m.m32,
        m.m33,
        m.m41,
        m.m42,
        m.m43,
    );
    lemma_minor_with_second_factor(
        m.m31,
        m.m12,
        m.m13,
        m.m14,
        m.m32,
        m.m33,
        m.m34,
        m.m42,
        m.m43,
        m.m44,
    );
    lemma_minor_with_third_factor(
        m.m31,
        m.m12,
        m.m13,
        m.m14,
        m.m32,
        m.m33,
        m.m34,
        m.m42,
        m.m43,
        m.m44,
    );
    lemma_minor_with_second_factor(
        m.m32,
        m.m11,
        m.m13,
        m.m14,
        m.m31,
        m.m33,
        m.m34,
        m.m41,
        m.m43,
        m.m44,
    );
    lemma_minor_with_third_factor(
        m.m32,
        m.m11,
        m.m13,
        m.m14,
        m.m31,
        m.m33,
        m.m34,
        m.m41,
        m.m43,
        m.m44,
    );
    lemma_minor_with_second_factor(
        m.m33,
        m.m11,
        m.m12,
        m.m14,
        m.m31,
        m.m32,
        m.m34,
        m.m41,
        m.m42,
        m.m44,
    );
    lemma_minor_with_third_factor(
        m.m33,
        m.m11,
        m.m12,
        m.m14,
        m.m31,
        m.m32,
        m.m34,
        m.m41,
        m.m42,
        m.m44,
    );
    lemma_minor_with_second_factor(
        m.m34,
        m.m11,
        m.m12,
        m.m13,
        m.m31,
        m.m32,
        m.m33,
        m.m41,
        m.m42,
        m.m43,
    );
    lemma_minor_with_third_factor(
        m.m34,
        m.m11,
        m.m12,
        m.m13,
        m.m31,
        m.m32,
        m.m33,
        m.m41,
        m.m42,
        m.m43,
    );
    lemma_minor_with_third_factor(
        m.m31,
        m.m12,
        m.m13,
        m.m14,
        m.m22,
        m.m23,
        m.m24,
        m.m42,
        m.m43,
        m.m44,
    );
    lemma_minor_with_third_factor(
        m.m32,
        m.m11,
        m.m13,
        m.m14,
        m.m21,
        m.m23,
        m.m24,
        m.m41,
        m.m43,
        m.m44,
    );
    lemma_minor_with_third_factor(
        m.m33,
        m.m11,
        m.m12,
        m.m14,
        m.m21,
        m.m22,
        m.m24,
        m.m41,
        m.m42,
        m.m44,
    );
    lemma_minor_with_third_factor(
        m.m34,
        m.m11,
        m.m12,
        m.m13,
        m.m21,
        m.m22,
        m.m23,
        m.m41,
        m.m42,
        m.m43,
    );
    lemma_minor_with_third_factor(
        m.m31,
        m.m12,
        m.m13,
        m.m14,
        m.m22,
        m.m23,
        m.m24,
        m.m32,
        m.m33,
        m.m34,
    );
    lemma_minor_with_fourth_factor(
        m.m31,
        m.m12,
        m.m13,
        m.m14,
        m.m22,
        m.m23,
        m.m24,
        m.m32,
        m.m33,
        m.m34,
    );
    lemma_minor_with_third_factor(
        m.m32,
        m.m11,
        m.m13,
        m.m14,
        m.m21,
        m.m23,
        m.m24,
        m.m31,
        m.m33,
        m.m34,
    );
    lemma_minor_with_fourth_factor(
        m.m32,
        m.m11,
        m.m13,
        m.m14,
        m.m21,
        m.m23,
        m.m24,
        m.m31,
        m.m33,
        m.m34,
    );
    lemma_minor_with_third_factor(
        m.m33,
        m.m11,
        m.m12,
        m.m14,
        m.m21,
        m.m22,
        m.m24,
        m.m31,
        m.m32,
        m.m34,
    );
    lemma_minor_with_fourth_factor(
        m.m33,
        m.m11,
        m.m12,
        m.m14,
        m.m21,
        m.m22,
        m.m24,
        m.m31,
        m.m32,
        m.m34,
    );
    lemma_minor_with_third_factor(
        m.m34,
        m.m11,
        m.m12,
        m.m13,
        m.m21,
        m.m22,
        m.m23,
        m.m31,
        m.m32,
        m.m33,
    );
    lemma_minor_with_fourth_factor(
        m.m34,
        m.m11,
        m.m12,
        m.m13,
        m.m21,
        m.m22,
        m.m23,
        m.m31,
        m.m32,
        m.m33,
    );
}

/// Row 4 of a matrix times its adjugate is row 4 of the identity scaled by
/// the determinant.
proof fn lemma_times_adjugate_row4(m: Mat4)
    ensures
        m.mul(m.adjugate()).row4() == Mat4::identity().scale(m.det()).row4(),
{
    lemma_det_expanded(m);
    lemma_minor_with_third_factor(
        m.m41,
        m.m22,
        m.m23,
        m.m24,
        m.m32,
        m.m33,
        m.m34,
        m.m42,
        m.m43,
        m.m44,
    );
    lemma_minor_with_fourth_factor(
        m.m41,
        m.m22,
        m.m23,
        m.m24,
        m.m32,
        m.m33,
        m.m34,
        m.m42,
        m.m43,
        m.m44,
    );
    lemma_minor_with_third_factor(
        m.m42,
        m.m21,
        m.m23,
        m.m24,
        m.m31,
        m.m33,
        m.m34,
        m.m41,
        m.m43,
        m.m44,
    );
    lemma_minor_with_fourth_factor(
        m.m42,
        m.m21,
        m.m23,
        m.m24,
        m.m31,
        m.m33,
        m.m34,
        m.m41,
        m.m43,
        m.m44,
    );
    lemma_minor_with_third_factor(
        m.m43,
        m.m21,
        m.m22,
        m.m24,
        m.m31,
        m.m32,
        m.m34,
        m.m41,
        m.m42,
        m.m44,
    );
    lemma_minor_with_fourth_factor(
        m.m43,
        m.m21,
        m.m22,
        m.m24,
        m.m31,
        m.m32,
        m.m34,
        m.m41,
        m.m42,
        m.m44,
    );
    lemma_minor_with_third_factor(
        m.m44,
        m.m21,
        m.m22,
        m.m23,
        m.m31,
        m.m32,
        m.m33,
        m.m41,
        m.m42,
        m.m43,
    );
    lemma_minor_with_fourth_factor(
        m.m44,
        m.m21,
        m.m22,
        m.m23,
        m.m31,
        m.m32,
        m.m33,
        m.m41,
        m.m42,
        m.m43,
    );
    lemma_minor_with_third_factor(
        m.m41,
        m.m12,
        m.m13,
        m.m14,
        m.m32,
        m.m33,
        m.m34,
        m.m42,
        m.m43,
        m.m44,
    );
    lemma_minor_with_fourth_factor(
        m.m41,
        m.m12,
        m.m13,
        m.m14,
        m.m32,
        m.m33,
        m.m34,
        m.m42,
        m.m43,
        m.m44,
    );
    lemma_minor_with_third_factor(
        m.m42,
        m.m11,
        m.m13,
        m.m14,
        m.m31,
        m.m33,
        m.m34,
        m.m41,
        m.m43,
        m.m44,
    );
    lemma_minor_with_fourth_factor(
        m.m42,
        m.m11,
        m.m13,
        m.m14,
        m.m31,
        m.m33,
        m.m34,
        m.m41,
        m.m43,
        m.m44,
    );
    lemma_minor_with_third_factor(
        m.m43,
        m.m11,
        m.m12,
        m.m14,
        m.m31,
        m.m32,
        m.m34,
        m.m41,
        m.m42,
        m.m44,
    );
    lemma_minor_with_fourth_factor(
        m.m43,
        m.m11,
        m.m12,
        m.m14,
        m.m31,
        m.m32,
        m.m34,
        m.m41,
        m.m42,
        m.m44,
    );
    lemma_minor_with_third_factor(
        m.m44,
        m.m11,
        m.m12,
        m.m13,
        m.m31,
        m.m32,
        m.m33,
        m.m41,
        m.m42,
        m.m43,
    );
    lemma_minor_with_fourth_factor(
        m.m44,
        m.m11,
        m.m12,
        m.m13,
        m.m31,
        m.m32,
        m.m33,
        m.m41,
        m.m42,
        m.m43,
    );
    lemma_minor_with_third_factor(
        m.m41,
        m.m12,
        m.m13,
        m.m14,
        m.m22,
        m.m23,
        m.m24,
        m.m42,
        m.m43,
        m.m44,
    );
    lemma_minor_with_fourth_factor(
        m.m41,
        m.m12,
        m.m13,
        m.m14,
        m.m22,
        m.m23,
        m.m24,
        m.m42,
        m.m43,
        m.m44,
    );
    lemma_minor_with_third_factor(
        m.m42,
        m.m11,
        m.m13,
        m.m14,
        m.m21,
        m.m23,
        m.m24,
        m.m41,
        m.m43,
        m.m44,
    );
    lemma_minor_with_fourth_factor(
        m.m42,
        m.m11,
        m.m13,
        m.m14,
        m.m21,
        m.m23,
        m.m24,
        m.m41,
        m.m43,
        m.m44,
    );
    lemma_minor_with_third_factor(
        m.m43,
        m.m11,
        m.m12,
        m.m14,
        m.m21,
        m.m22,
        m.m24,
        m.m41,
        m.m42,
        m.m44,
    );
    lemma_minor_with_fourth_factor(
        m.m43,
        m.m11,
        m.m12,
        m.m14,
        m.m21,
        m.m22,
        m.m24,
        m.m41,
        m.m42,
        m.m44,
    );
    lemma_minor_with_third_factor(
        m.m44,
        m.m11,
        m.m12,
        m.m13,
        m.m21,
        m.m22,
        m.m23,
        m.m41,
        m.m42,
        m.m43,
    );
    lemma_minor_with_fourth_factor(
        m.m44,
        m.m11,
        m.m12,
        m.m13,
        m.m21,
        m.m22,
        m.m23,
        m.m41,
        m.m42,
        m.m43,
    );
    lemma_minor_with_fourth_factor(
        m.m41,
        m.m12,
        m.m13,
        m.m14,
        m.m22,
        m.m23,
        m.m24,
        m.m32,
        m.m33,
        m.m34,
    );
    lemma_minor_with_fourth_factor(
        m.m42,
        m.m11,
        m.m13,
        m.m14,
        m.m21,
        m.m23,
        m.m24,
        m.m31,
        m.m33,
        m.m34,
    );
    lemma_minor_with_fourth_factor(
        m.m43,
        m.m11,
        m.m12,
        m.m14,
        m.m21,
        m.m22,
        m.m24,
        m.m31,
        m.m32,
        m.m34,
    );
    lemma_minor_with_fourth_factor(
        m.m44,
        m.m11,
        m.m12,
        m.m13,
        m.m21,
        m.m22,
        m.m23,
        m.m31,
        m.m32,
        m.m33,
    );
}

/// Row 1 of the adjugate of a matrix times the matrix is row 1 of the
/// identity scaled by the determinant.
proof fn lemma_adjugate_times_row1(m: Mat4)
    ensures
        m.adjugate().mul(m).row1() == Mat4::identity().scale(m.det()).row1(),
{
    lemma_det_expanded(m);
    lemma_minor_with_first_factor(
        m.m11,
        m.m22,
        m.m23,
        m.m24,
        m.m32,
        m.m33,
        m.m34,
        m.m42,
        m.m43,
        m.m44,
    );
    lemma_minor_with_second_factor(
        m.m21,
        m.m12,
        m.m13,
        m.m14,
        m.m32,
        m.m33,
        m.m34,
        m.m42,
        m.m43,
        m.m44,
    );
    lemma_minor_with_third_factor(
        m.m31,
        m.m12,
        m.m13,
        m.m14,
        m.m22,
        m.m23,
        m.m24,
        m.m42,
        m.m43,
        m.m44,
    );
    lemma_minor_with_fourth_factor(
        m.m41,
        m.m12,
        m.m13,
        m.m14,
        m.m22,
        m.m23,
        m.m24,
        m.m32,
        m.m33,
        m.m34,
    );
    lemma_minor_with_first_factor(
        m.m12,
        m.m22,
        m.m23,
        m.m24,
        m.m32,
        m.m33,
        m.m34,
        m.m42,
        m.m43,
        m.m44,
    );
    lemma_minor_with_second_factor(
        m.m22,
        m.m12,
        m.m13,
        m.m14,
        m.m32,
        m.m33,
        m.m34,
        m.m42,
        m.m43,
        m.m44,
    );
    lemma_minor_with_third_factor(
        m.m32,
        m.m12,
        m.m13,
        m.m14,
        m.m22,
        m.m23,
        m.m24,
        m.m42,
        m.m43,
        m.m44,
    );
    lemma_minor_with_fourth_factor(
        m.m42,
        m.m12,
        m.m13,
        m.m14,
        m.m22,
        m.m23,
        m.m24,
        m.m32,
        m.m33,
        m.m34,
    );
    lemma_minor_with_first_factor(
        m.m13,
        m.m22,
        m.m23,
        m.m24,
        m.m32,
        m.m33,
        m.m34,
        m.m42,
        m.m43,
        m.m44,
    );
    lemma_minor_with_second_factor(
        m.m23,
        m.m12,
        m.m13,
        m.m14,
        m.m32,
        m.m33,
        m.m34,
        m.m42,
        m.m43,
        m.m44,
    );
    lemma_minor_with_third_factor(
        m.m33,
        m.m12,
        m.m13,
        m.m14,
        m.m22,
        m.m23,
        m.m24,
        m.m42,
        m.m43,
        m.m44,
    );
    lemma_minor_with_fourth_factor(
        m.m43,
        m.m12,
        m.m13,
        m.m14,
        m.m22,
        m.m23,
        m.m24,
        m.m32,
        m.m33,
        m.m34,
    );
    lemma_minor_with_first_factor(
        m.m14,
        m.m22,
        m.m23,
        m.m24,
        m.m32,
        m.m33,
        m.m34,
        m.m42,
        m.m43,
        m.m44,
    );
    lemma_minor_with_second_factor(
        m.m24,
        m.m12,
        m.m13,
        m.m14,
        m.m32,
        m.m33,
        m.m34,
        m.m42,
        m.m43,
        m.m44,
    );
    lemma_minor_with_third_factor(
        m.m34,
        m.m12,
        m.m13,
        m.m14,
        m.m22,
        m.m23,
        m.m24,
        m.m42,
        m.m43,
        m.m44,
    );
    lemma_minor_with_fourth_factor(
        m.m44,
        m.m12,
        m.m13,
        m.m14,
        m.m22,
        m.m23,
        m.m24,
        m.m32,
        m.m33,
        m.m34,
    );
}

/// Row 2 of the adjugate of a matrix times the matrix is row 2 of the
/// identity scaled by the determinant.
proof fn lemma_adjugate_times_row2(m: Mat4)
    ensures
        m.adjugate().mul(m).row2() == Mat4::identity().scale(m.det()).row2(),
{
    lemma_det_expanded(m);
    lemma_minor_with_first_factor(
        m.m11,
        m.m21,
        m.m23,
        m.m24,
        m.m31,
        m.m33,
        m.m34,
        m.m41,
        m.m43,
        m.m44,
    );
    lemma_minor_with_second_factor(
        m.m21,
        m.m11,
        m.m13,
        m.m14,
        m.m31,
        m.m33,
        m.m34,
        m.m41,
        m.m43,
        m.m44,
    );
    lemma_minor_with_third_factor(
        m.m31,
        m.m11,
        m.m13,
        m.m14,
        m.m21,
        m.m23,
        m.m24,
        m.m41,
        m.m43,
        m.m44,
    );
    lemma_minor_with_fourth_factor(
        m.m41,
        m.m11,
        m.m13,
        m.m14,
        m.m21,
        m.m23,
        m.m24,
        m.m31,
        m.m33,
        m.m34,
    );
    lemma_minor_with_first_factor(
        m.m12,
        m.m21,
        m.m23,
        m.m24,
        m.m31,
        m.m33,
        m.m34,
        m.m41,
        m.m43,
        m.m44,
    );
    lemma_minor_with_second_factor(
        m.m22,
        m.m11,
        m.m13,
        m.m14,
        m.m31,
        m.m33,
        m.m34,
        m.m41,
        m.m43,
        m.m44,
    );
    lemma_minor_with_third_factor(
        m.m32,
        m.m11,
        m.m13,
        m.m14,
        m.m21,
        m.m23,
        m.m24,
        m.m41,
        m.m43,
        m.m44,
    );
    lemma_minor_with_fourth_factor(
        m.m42,
        m.m11,
        m.m13,
        m.m14,
        m.m21,
        m.m23,
        m.m24,
        m.m31,
        m.m33,
        m.m34,
    );
    lemma_minor_with_first_factor(
        m.m13,
        m.m21,
        m.m23,
        m.m24,
        m.m31,
        m.m33,
        m.m34,
        m.m41,
        m.m43,
        m.m44,
    );
    lemma_minor_with_second_factor(
        m.m23,
        m.m11,
        m.m13,
        m.m14,
        m.m31,
        m.m33,
        m.m34,
        m.m41,
        m.m43,
        m.m44,
    );
    lemma_minor_with_third_factor(
        m.m33,
        m.m11,
        m.m13,
        m.m14,
        m.m21,
        m.m23,
        m.m24,
        m.m41,
        m.m43,
        m.m44,
    );
    lemma_minor_with_fourth_factor(
        m.m43,
        m.m11,
        m.m13,
        m.m14,
        m.m21,
        m.m23,
        m.m24,
        m.m31,
        m.m33,
        m.m34,
    );
    lemma_minor_with_first_factor(
        m.m14,
        m.m21,
        m.m23,
        m.m24,
        m.m31,
        m.m33,
        m.m34,
        m.m41,
        m.m43,
        m.m44,
    );
    lemma_minor_with_second_factor(
        m.m24,
        m.m11,
        m.m13,
        m.m14,
        m.m31,
        m.m33,
        m.m34,
        m.m41,
        m.m43,
        m.m44,
    );
    lemma_minor_with_third_factor(
        m.m34,
        m.m11,
        m.m13,
        m.m14,
        m.m21,
        m.m23,
        m.m24,
        m.m41,
        m.m43,
        m.m44,
    );
    lemma_minor_with_fourth_factor(
        m.m44,
        m.m11,
        m.m13,
        m.m14,
        m.m21,
        m.m23,
        m.m24,
        m.m31,
        m.m33,
        m.m34,
    );
}

/// Row 3 of the adjugate of a matrix times the matrix is row 3 of the
/// identity scaled by the determinant.
proof fn lemma_adjugate_times_row3(m: Mat4)
    ensures
        m.adjugate().mul(m).row3() == Mat4::identity().scale(m.det()).row3(),
{
    lemma_det_expanded(m);
    lemma_minor_with_first_factor(
        m.m11,
        m.m21,
        m.m22,
        m.m24,
        m.m31,
        m.m32,
        m.m34,
        m.m41,
        m.m42,
        m.m44,
    );
    lemma_minor_with_second_factor(
        m.m21,
        m.m11,
        m.m12,
        m.m14,
        m.m31,
        m.m32,
        m.m34,
        m.m41,
        m.m42,
        m.m44,
    );
    lemma_minor_with_third_factor(
        m.m31,
        m.m11,
        m.m12,
        m.m14,
        m.m21,
        m.m22,
        m.m24,
        m.m41,
        m.m42,
        m.m44,
    );
    lemma_minor_with_fourth_factor(
        m.m41,
        m.m11,
        m.m12,
        m.m14,
        m.m21,
        m.m22,
        m.m24,
        m.m31,
        m.m32,
        m.m34,
    );
    lemma_minor_with_first_factor(
        m.m12,
        m.m21,
        m.m22,
        m.m24,
        m.m31,
        m.m32,
        m.m34,
        m.m41,
        m.m42,
        m.m44,
    );
    lemma_minor_with_second_factor(
        m.m22,
        m.m11,
        m.m12,
        m.m14,
        m.m31,
        m.m32,
        m.m34,
        m.m41,
        m.m42,
        m.m44,
    );
    lemma_minor_with_third_factor(
        m.m32,
        m.m11,
        m.m12,
        m.m14,
        m.m21,
        m.m22,
        m.m24,
        m.m41,
        m.m42,
        m.m44,
    );
    lemma_minor_with_fourth_factor(
        m.m42,
        m.m11,
        m.m12,
        m.m14,
        m.m21,
        m.m22,
        m.m24,
        m.m31,
        m.m32,
        m.m34,
    );
    lemma_minor_with_first_factor(
        m.m13,
        m.m21,
        m.m22,
        m.m24,
        m.m31,
        m.m32,
        m.m34,
        m.m41,
        m.m42,
        m.m44,
    );
    lemma_minor_with_second_factor(
        m.m23,
        m.m11,
        m.m12,
        m.m14,
        m.m31,
        m.m32,
        m.m34,
        m.m41,
        m.m42,
        m.m44,
    );
    lemma_minor_with_third_factor(
        m.m33,
        m.m11,
        m.m12,
        m.m14,
        m.m21,
        m.m22,
        m.m24,
        m.m41,
        m.m42,
        m.m44,
    );
    lemma_minor_with_fourth_factor(
        m.m43,
        m.m11,
        m.m12,
        m.m14,
        m.m21,
        m.m22,
        m.m24,
        m.m31,
        m.m32,
        m.m34,
    );
    lemma_minor_with_first_factor(
        m.m14,
        m.m21,
        m.m22,
        m.m24,
        m.m31,
        m.m32,
        m.m34,
        m.m41,
        m.m42,
        m.m44,
    );
    lemma_minor_with_second_factor(
        m.m24,
        m.m11,
        m.m12,
        m.m14,
        m.m31,
        m.m32,
        m.m34,
        m.m41,
        m.m42,
        m.m44,
    );
    lemma_minor_with_third_factor(
        m.m34,
        m.m11,
        m.m12,
        m.m14,
        m.m21,
        m.m22,
        m.m24,
        m.m41,
        m.m42,
        m.m44,
    );
    lemma_minor_with_fourth_factor(
        m.m44,
        m.m11,
        m.m12,
        m.m14,
        m.m21,
        m.m22,
        m.m24,
        m.m31,
        m.m32,
        m.m34,
    );
}

/// Row 4 of the adjugate of a matrix times the matrix is row 4 of the
/// identity scaled by the determinant.
proof fn lemma_adjugate_times_row4(m: Mat4)
    ensures
        m.adjugate().mul(m).row4() == Mat4::identity().scale(m.det()).row4(),
{
    lemma_det_expanded(m);
    lemma_minor_with_first_factor(
        m.m11,
        m.m21,
        m.m22,
        m.m23,
        m.m31,
        m.m32,
        m.m33,
        m.m41,
        m.m42,
        m.m43,
    );
    lemma_minor_with_second_factor(
        m.m21,
        m.m11,
        m.m12,
        m.m13,
        m.m31,
        m.m32,
        m.m33,
        m.m41,
        m.m42,
        m.m43,
    );
    lemma_minor_with_third_factor(
        m.m31,
        m.m11,
        m.m12,
        m.m13,
        m.m21,
        m.m22,
        m.m23,
        m.m41,
        m.m42,
        m.m43,
    );
    lemma_minor_with_fourth_factor(
        m.m41,
        m.m11,
        m.m12,
        m.m13,
        m.m21,
        m.m22,
        m.m23,
        m.m31,
        m.m32,
        m.m33,
    );
    lemma_minor_with_first_factor(
        m.m12,
        m.m21,
        m.m22,
        m.m23,
        m.m31,
        m.m32,
        m.m33,
        m.m41,
        m.m42,
        m.m43,
    );
    lemma_minor_with_second_factor(
        m.m22,
        m.m11,
        m.m12,
        m.m13,
        m.m31,
        m.m32,
        m.m33,
        m.m41,
        m.m42,
        m.m43,
    );
    lemma_minor_with_third_factor(
        m.m32,
        m.m11,
        m.m12,
        m.m13,
        m.m21,
        m.m22,
        m.m23,
        m.m41,
        m.m42,
        m.m43,
    );
    lemma_minor_with_fourth_factor(
        m.m42,
        m.m11,
        m.m12,
        m.m13,
        m.m21,
        m.m22,
        m.m23,
        m.m31,
        m.m32,
        m.m33,
    );
    lemma_minor_with_first_factor(
        m.m13,
        m.m21,
        m.m22,
        m.m23,
        m.m31,
        m.m32,
        m.m33,
        m.m41,
        m.m42,
        m.m43,
    );
    lemma_minor_with_second_factor(
        m.m23,
        m.m11,
        m.m12,
        m.m13,
        m.m31,
        m.m32,
        m.m33,
        m.m41,
        m.m42,
        m.m43,
    );
    lemma_minor_with_third_factor(
        m.m33,
        m.m11,
        m.m12,
        m.m13,
        m.m21,
        m.m22,
        m.m23,
        m.m41,
        m.m42,
        m.m43,
    );
    lemma_minor_with_fourth_factor(
        m.m43,
        m.m11,
        m.m12,
        m.m13,
        m.m21,
        m.m22,
        m.m23,
        m.m31,
        m.m32,
        m.m33,
    );
    lemma_minor_with_first_factor(
        m.m14,
        m.m21,
        m.m22,
        m.m23,
        m.m31,
        m.m32,
        m.m33,
        m.m41,
        m.m42,
        m.m43,
    );
    lemma_minor_with_second_factor(
        m.m24,
        m.m11,
        m.m12,
        m.m13,
        m.m31,
        m.m32,
        m.m33,
        m.m41,
        m.m42,
        m.m43,
    );
    lemma_minor_with_third_factor(
        m.m34,
        m.m11,
        m.m12,
        m.m13,
        m.m21,
        m.m22,
        m.m23,
        m.m41,
        m.m42,
        m.m43,
    );
    lemma_minor_with_fourth_factor(
        m.m44,
        m.m11,
        m.m12,
        m.m13,
        m.m21,
        m.m22,
        m.m23,
        m.m31,
        m.m32,
        m.m33,
    );
}

/// A matrix times its adjugate, on either side, is the identity scaled by the
/// determinant.
pub proof fn lemma_adjugate_inverts(m: Mat4)
    ensures
        m.mul(m.adjugate()) == Mat4::identity().scale(m.det()),
        m.adjugate().mul(m) == Mat4::identity().scale(m.det()),
{
    lemma_times_adjugate_row1(m);
    lemma_times_adjugate_row2(m);
    lemma_times_adjugate_row3(m);
    lemma_times_adjugate_row4(m);
    lemma_adjugate_times_row1(m);
    lemma_adjugate_times_row2(m);
    lemma_adjugate_times_row3(m);
    lemma_adjugate_times_row4(m);
    let p = m.mul(m.adjugate());
    let q = m.adjugate().mul(m);
    let s = Mat4::identity().scale(m.det());
    assert(p.row1() == s.row1() && p.row2() == s.row2() && p.row3() == s.row3() && p.row4()
        == s.row4());
    assert(q.row1() == s.row1() && q.row2() == s.row2() && q.row3() == s.row3() && q.row4()
        == s.row4());
}

impl<T: Scalar, Src, Dst> Transform3<T, Src, Dst> {
    /// The forward matrix.
    pub closed spec fn matrix(&self) -> Mat4 {
        mat4_of(self.mat)
    }

    /// The cached matrix for the way back.
    pub closed spec fn inverse_matrix(&self) -> Mat4 {
        mat4_of(self.mat_inv)
    }

    /// Whether the cached matrix undoes the forward matrix exactly, on both
    /// sides.
    pub open spec fn is_exact(&self) -> bool {
        self@.is_exact()
    }

    /// Transforms with the same pair of matrices are the same value.
    pub proof fn lemma_view_injective(self, other: Self)
        requires
            self@ == other@,
        ensures
            self == other,
    {
        self.mat[0][0].lemma_val_injective(other.mat[0][0]);
        self.mat_inv[0][0].lemma_val_injective(other.mat_inv[0][0]);
        self.mat[0][1].lemma_val_injective(other.mat[0][1]);
        self.mat_inv[0][1].lemma_val_injective(other.mat_inv[0][1]);
        self.mat[0][2].lemma_val_injective(other.mat[0][2]);
        self.mat_inv[0][2].lemma_val_injective(other.mat_inv[0][2]);
        self.mat[0][3].lemma_val_injective(other.mat[0][3]);
        self.mat_inv[0][3].lemma_val_injective(other.mat_inv[0][3]);
        self.mat[1][0].lemma_val_injective(other.mat[1][0]);
        self.mat_inv[1][0].lemma_val_injective(other.mat_inv[1][0]);
        self.mat[1][1].lemma_val_injective(other.mat[1][1]);
        self.mat_inv[1][1].lemma_val_injective(other.mat_inv[1][1]);
        self.mat[1][2].lemma_val_injective(other.mat[1][2]);
        self.mat_inv[1][2].lemma_val_injective(other.mat_inv[1][2]);
        self.mat[1][3].lemma_val_injective(other.mat[1][3]);
        self.mat_inv[1][3].lemma_val_injective(other.mat_inv[1][3]);
        self.mat[2][0].lemma_val_injective(other.mat[2][0]);
        self.mat_inv[2][0].lemma_val_injective(other.mat_inv[2][0]);
        self.mat[2][1].lemma_val_injective(other.mat[2][1]);
        self.mat_inv[2][1].lemma_val_injective(other.mat_inv[2][1]);
        self.mat[2][2].lemma_val_injective(other.mat[2][2]);
        self.mat_inv[2][2].lemma_val_injective(other.mat_inv[2][2]);
        self.mat[2][3].lemma_val_injective(other.mat[2][3]);
        self.mat_inv[2][3].lemma_val_injective(other.mat_inv[2][3]);
        self.mat[3][0].lemma_val_injective(other.mat[3][0]);
        self.mat_inv[3][0].lemma_val_injective(other.mat_inv[3][0]);
        self.mat[3][1].lemma_val_injective(other.mat[3][1]);
        self.mat_inv[3][1].lemma_val_injective(other.mat_inv[3][1]);
        self.mat[3][2].lemma_val_injective(other.mat[3][2]);
        self.mat_inv[3][2].lemma_val_injective(other.mat_inv[3][2]);
        self.mat[3][3].lemma_val_injective(other.mat[3][3]);
        self.mat_inv[3][3].lemma_val_injective(other.mat_inv[3][3]);
        assert(self.mat[0] =~= other.mat[0]);
        assert(self.mat_inv[0] =~= other.mat_inv[0]);
        assert(self.mat[1] =~= other.mat[1]);
        assert(self.mat_inv[1] =~= other.mat_inv[1]);
        assert(self.mat[2] =~= other.mat[2]);
        assert(self.mat_inv[2] =~= other.mat_inv[2]);
        assert(self.mat[3] =~= other.mat[3]);
        assert(self.mat_inv[3] =~= other.mat_inv[3]);
        assert(self.mat =~= other.mat);
        assert(self.mat_inv =~= other.mat_inv);
    }

    /// The transform with the given matrix and cached inverse, taken as they are.
    pub(crate) fn new_raw(mat: [[T; 4]; 4], mat_inv: [[T; 4]; 4]) -> (r: Self)
        ensures
            r.matrix() == mat4_of(mat),
            r.inverse_matrix() == mat4_of(mat_inv),
    {
        Self { mat, mat_inv, _unit: PhantomData }
    }

    /// The transform that leaves everything where it is.
    pub fn identity() -> (r: Self)
        ensures
            r.matrix() == Mat4::identity(),
            r.inverse_matrix() == Mat4::identity(),
            r.is_exact(),
    {
        let o = T::zero();
        let l = T::one();
        let mat = [[l, o, o, o], [o, l, o, o], [o, o, l, o], [o, o, o, l]];
        proof {
            lemma_translation_exact(Vec3::zero(), Vec2::zero());
        }
        Self::new_raw(mat, mat)
    }

    /// Whether the forward matrix is exactly the identity matrix.
    pub fn is_identity(&self) -> (r: bool)
        ensures
            r == (self.matrix() == Mat4::identity()),
    {
        let o = T::zero();
        let l = T::one();
        let m = &self.mat;
        m[0][0].eq(l) && m[0][1].eq(o) && m[0][2].eq(o) && m[0][3].eq(o) && m[1][0].eq(o)
            && m[1][1].eq(l) && m[1][2].eq(o) && m[1][3].eq(o) && m[2][0].eq(o) && m[2][1].eq(o)
            && m[2][2].eq(l) && m[2][3].eq(o) && m[3][0].eq(o) && m[3][1].eq(o) && m[3][2].eq(o)
            && m[3][3].eq(l)
    }

    /// The same matrices with the spaces forgotten.
    pub fn erase_unit(&self) -> (r: Transform3<T, UnknownUnit, UnknownUnit>)
        ensures
            r.matrix() == self.matrix(),
            r.inverse_matrix() == self.inverse_matrix(),
    {
        Transform3 { mat: self.mat, mat_inv: self.mat_inv, _unit: PhantomData }
    }

    /// The transform with the given matrix, which must be invertible.
    pub fn new(mat: [[T; 4]; 4]) -> (r: Self)
        requires
            invertible_in::<T>(mat4_of(mat)),
        ensures
            r.matrix() == mat4_of(mat),
            r.inverse_matrix() == mat4_of(mat).adjugate().scale(trunc_div(1, mat4_of(mat).det())),
            mat4_of(mat).det() == 1 || mat4_of(mat).det() == -1 ==> r.is_exact(),
    {
        match Self::try_new(mat) {
            Some(t) => t,
            None => {
                proof {
                    assert(false);
                }
                Self::new_raw(mat, mat)
            },
        }
    }

    /// The transform with the given matrix, or nothing when the determinant is
    /// exactly zero. The cached inverse is the adjugate scaled by the
    /// reciprocal of the determinant.
    pub fn try_new(mat: [[T; 4]; 4]) -> (r: Option<Self>)
        requires
            det_fits::<T>(mat4_of(mat)),
            mat4_of(mat).det() != 0 ==> inverse_fits::<T>(mat4_of(mat)),
        ensures
            r.is_none() <==> mat4_of(mat).det() == 0,
            r matches Some(t) ==> t.matrix() == mat4_of(mat) && t.inverse_matrix() == mat4_of(
                mat,
            ).adjugate().scale(trunc_div(1, mat4_of(mat).det())),
            r matches Some(t) ==> (mat4_of(mat).det() == 1 || mat4_of(mat).det() == -1
                ==> t.is_exact()),
    {
        proof {
            if mat4_of(mat).det() == 1 || mat4_of(mat).det() == -1 {
                lemma_unimodular_inverse3(mat4_of(mat));
            }
        }
        match Self::mat_inverse(mat) {
            Some(mat_inv) => Some(Self::new_raw(mat, mat_inv)),
            None => None,
        }
    }

    /// The transform that moves every point by `v`.
    pub fn translation(v: Vector3<T, Src>) -> (r: Self)
        requires
            v@.neg().fits::<T>(),
        ensures
            r.matrix() == Mat4::translation(v@),
            r.inverse_matrix() == Mat4::translation(v@.neg()),
            r.is_exact(),
    {
        proof {
            lemma_translation_exact(v@, Vec2::zero());
        }
        let o = T::zero();
        let l = T::one();
        let x = v.x;
        let y = v.y;
        let z = v.z;
        Self::new_raw(
            [[l, o, o, o], [o, l, o, o], [o, o, l, o], [x, y, z, l]],
            [[l, o, o, o], [o, l, o, o], [o, o, l, o], [o.sub(x), o.sub(y), o.sub(z), l]],
        )
    }

    /// The transform that stretches the axes by `x`, `y` and `z`. The cached
    /// inverse stretches by the reciprocals, rounded toward zero.
    pub fn scale(x: Scale<T, Src, Dst>, y: Scale<T, Src, Dst>, z: Scale<T, Src, Dst>) -> (r: Self)
        requires
            x@ != 0,
            y@ != 0,
            z@ != 0,
            T::fits(trunc_div(1, x@)),
            T::fits(trunc_div(1, y@)),
            T::fits(trunc_div(1, z@)),
        ensures
            r.matrix() == Mat4::scaling(x@, y@, z@),
            r.inverse_matrix() == Mat4::scaling(
                trunc_div(1, x@),
                trunc_div(1, y@),
                trunc_div(1, z@),
            ),
            (x@ == 1 || x@ == -1) && (y@ == 1 || y@ == -1) && (z@ == 1 || z@ == -1)
                ==> r.is_exact(),
    {
        proof {
            if (x@ == 1 || x@ == -1) && (y@ == 1 || y@ == -1) && (z@ == 1 || z@ == -1) {
                lemma_unit_scaling_exact(x@, y@, z@);
            }
        }
        let o = T::zero();
        let l = T::one();
        let x = x.get();
        let y = y.get();
        let z = z.get();
        Self::new_raw(
            [[x, o, o, o], [o, y, o, o], [o, o, z, o], [o, o, o, l]],
            [[l.div(x), o, o, o], [o, l.div(y), o, o], [o, o, l.div(z), o], [o, o, o, l]],
        )
    }

    /// The rotation about the unit vector `axis` whose half angle has sine
    /// `sin` and cosine `cos`. The cached inverse is the transpose. The axis
    /// stays in place; for a unit axis and a sine and cosine whose squares add
    /// up to one the determinant is one and the transform is exact.
    pub fn rotation_from_half_angle(axis: Vector3<T, Src>, sin: T, cos: T) -> (r: Self)
        requires
            rotation3_fits::<T>(axis@, sin.val(), cos.val()),
        ensures
            r.matrix() == rotation3_spec(axis@, sin.val(), cos.val()),
            r.inverse_matrix() == rotation3_spec(axis@, sin.val(), cos.val()).transpose(),
            r.matrix().apply_vector(axis@) == axis@,
            axis@.dot(axis@) == 1 && sin.val() * sin.val() + cos.val() * cos.val() == 1
                ==> r.is_exact() && r.matrix().det() == 1,
    {
        proof {
            lemma_axis_stays(axis@, sin.val(), cos.val());
            if axis@.dot(axis@) == 1 && sin.val() * sin.val() + cos.val() * cos.val() == 1 {
                lemma_axis_angle_exact(axis@, sin.val(), cos.val());
                lemma_axis_angle_is_rotation(axis@, sin.val(), cos.val());
            }
        }
        let o = T::zero();
        let l = T::one();
        let two = l.add(l);
        let x = axis.x;
        let y = axis.y;
        let z = axis.z;
        let xx = x.mul(x);
        let yy = y.mul(y);
        let zz = z.mul(z);
        let sc = sin.mul(cos);
        let ss = sin.mul(sin);
        let mat = [
            [
                l.sub(two.mul(yy.add(zz)).mul(ss)),
                two.mul(x.mul(y).mul(ss).add(z.mul(sc))),
                two.mul(x.mul(z).mul(ss).sub(y.mul(sc))),
                o,
            ],
            [
                two.mul(x.mul(y).mul(ss).sub(z.mul(sc))),
                l.sub(two.mul(xx.add(zz)).mul(ss)),
                two.mul(y.mul(z).mul(ss).add(x.mul(sc))),
                o,
            ],
            [
                two.mul(x.mul(z).mul(ss).add(y.mul(sc))),
                two.mul(y.mul(z).mul(ss).sub(x.mul(sc))),
                l.sub(two.mul(xx.add(yy)).mul(ss)),
                o,
            ],
            [o, o, o, l],
        ];
        Self::new_raw(mat, Self::mat_transpose(mat))
    }

    /// The rotation about the unit vector `axis` by `theta`. The axis stays in
    /// place; for a unit axis, where the squares of the sine and the cosine of
    /// half the angle add up to one, the determinant is one and the transform
    /// is exact.
    pub fn rotation(axis: Vector3<T, Src>, theta: Angle<T>) -> (r: Self) where T: Trig
        requires
            T::fits(2),
            T::fits(trunc_div(theta@, 2)),
            rotation3_fits::<T>(
                axis@,
                half_of::<T>(theta@).sin_spec().val(),
                half_of::<T>(theta@).cos_spec().val(),
            ),
        ensures
            r.matrix() == rotation3_spec(
                axis@,
                half_of::<T>(theta@).sin_spec().val(),
                half_of::<T>(theta@).cos_spec().val(),
            ),
            r.inverse_matrix() == r.matrix().transpose(),
            r.matrix().apply_vector(axis@) == axis@,
            axis@.dot(axis@) == 1 && unit_pair(half_of::<T>(theta@)) ==> r.is_exact()
                && r.matrix().det() == 1,
    {
        let l = T::one();
        let two = l.add(l);
        let half_theta = theta.0.div(two);
        proof {
            lemma_is_of_int(half_theta);
        }
        let sin = half_theta.sin();
        let cos = half_theta.cos();
        Self::rotation_from_half_angle(axis, sin, cos)
    }

    /// The view matrix of a camera at `eye` for a right-handed frame, from its
    /// unit forward vector `f` and its unit right vector `s`; the up vector is
    /// the cross product of `s` and `f`. The eye goes to the origin. When `f`
    /// and `s` have length one and are at right angles, the matrix is a rigid
    /// motion: its determinant is one, its cached inverse undoes it exactly,
    /// and it sends right, up and forward to the first axis, the second axis
    /// and the opposite of the third.
    pub fn look_to_rh_from_basis(
        eye: Point3<T, Src>,
        f: Vector3<T, Src>,
        s: Vector3<T, Src>,
    ) -> (r: Self)
        requires
            look_to_rh_fits::<T>(eye@, f@, s@),
            invertible_in::<T>(look_to_rh_spec(eye@, f@, s@)),
        ensures
            r.matrix() == look_to_rh_spec(eye@, f@, s@),
            r.inverse_matrix() == r.matrix().adjugate().scale(trunc_div(1, r.matrix().det())),
            r.matrix().is_affine(),
            r.matrix().apply_point(eye@) == (Vec4 { x: 0, y: 0, z: 0, w: 1 }),
            is_orthonormal_pair(f@, s@) ==> r.matrix().det() == 1 && r.is_exact(),
            is_orthonormal_pair(f@, s@) ==> r.matrix().apply_vector(s@) == (Vec3 {
                x: 1,
                y: 0,
                z: 0,
            }) && r.matrix().apply_vector(s@.cross(f@)) == (Vec3 { x: 0, y: 1, z: 0 })
                && r.matrix().apply_vector(f@) == (Vec3 { x: 0, y: 0, z: -1 }),
    {
        proof {
            lemma_view_matrix_centres_eye(eye@, f@, s@);
            if is_orthonormal_pair(f@, s@) {
                lemma_view_matrix_is_rigid(eye@, f@, s@);
            }
        }
        let eye = eye.to_vector();
        let u = s.cross(f);
        let o = T::zero();
        let l = T::one();
        Self::new(
            [
                [s.x, u.x, f.x.neg(), o],
                [s.y, u.y, f.y.neg(), o],
                [s.z, u.z, f.z.neg(), o],
                [eye.dot(s).neg(), eye.dot(u).neg(), eye.dot(f), l],
            ],
        )
    }

    /// The perspective projection for a left-handed frame, from the sine and
    /// cosine of half the vertical field of view.
    pub fn perspective_lh_from_sin_cos(
        sin_fov: T,
        cos_fov: T,
        aspect_ratio: T,
        z_near: Length<T, Src>,
        z_far: Length<T, Src>,
    ) -> (r: Self)
        requires
            perspective_fits::<T>(
                sin_fov.val(),
                cos_fov.val(),
                aspect_ratio.val(),
                z_far@,
                z_far@ - z_near@,
            ),
            T::fits(0 - trunc_div(z_far@, z_far@ - z_near@)),
            T::fits((0 - trunc_div(z_far@, z_far@ - z_near@)) * z_near@),
            invertible_in::<T>(
                perspective_lh_spec(
                    sin_fov.val(),
                    cos_fov.val(),
                    aspect_ratio.val(),
                    z_near@,
                    z_far@,
                ),
            ),
        ensures
            r.matrix() == perspective_lh_spec(
                sin_fov.val(),
                cos_fov.val(),
                aspect_ratio.val(),
                z_near@,
                z_far@,
            ),
            r.inverse_matrix() == r.matrix().adjugate().scale(trunc_div(1, r.matrix().det())),
    {
        let z_near = z_near.get();
        let z_far = z_far.get();
        let h = cos_fov.div(sin_fov);
        let w = h.div(aspect_ratio);
        let r = z_far.div(z_far.sub(z_near));
        let o = T::zero();
        let l = T::one();
        Self::new([[w, o, o, o], [o, h, o, o], [o, o, r, l], [o, o, o.sub(r).mul(z_near), o]])
    }

    /// The perspective projection for a left-handed frame with the vertical
    /// field of view `fov_y`.
    pub fn perspective_lh(
        fov_y: Angle<T>,
        aspect_ratio: T,
        z_near: Length<T, Src>,
        z_far: Length<T, Src>,
    ) -> (r: Self) where T: Trig
        requires
            T::fits(2),
            T::fits(trunc_div(fov_y@, 2)),
            perspective_fits::<T>(
                half_of::<T>(fov_y@).sin_spec().val(),
                half_of::<T>(fov_y@).cos_spec().val(),
                aspect_ratio.val(),
                z_far@,
                z_far@ - z_near@,
            ),
            T::fits(0 - trunc_div(z_far@, z_far@ - z_near@)),
            T::fits((0 - trunc_div(z_far@, z_far@ - z_near@)) * z_near@),
            invertible_in::<T>(
                perspective_lh_spec(
                    half_of::<T>(fov_y@).sin_spec().val(),
                    half_of::<T>(fov_y@).cos_spec().val(),
                    aspect_ratio.val(),
                    z_near@,
                    z_far@,
                ),
            ),
        ensures
            r.matrix() == perspective_lh_spec(
                half_of::<T>(fov_y@).sin_spec().val(),
                half_of::<T>(fov_y@).cos_spec().val(),
                aspect_ratio.val(),
                z_near@,
                z_far@,
            ),
            r.inverse_matrix() == r.matrix().adjugate().scale(trunc_div(1, r.matrix().det())),
    {
        let two = T::one().add(T::one());
        let fov = fov_y.radians().div(two);
        proof {
            lemma_is_of_int(fov);
        }
        let sin_fov = fov.sin();
        let cos_fov = fov.cos();
        Self::perspective_lh_from_sin_cos(sin_fov, cos_fov, aspect_ratio, z_near, z_far)
    }

    /// The perspective projection for a right-handed frame, from the sine and
    /// cosine of half the vertical field of view.
    pub fn perspective_rh_from_sin_cos(
        sin_fov: T,
        cos_fov: T,
        aspect_ratio: T,
        z_near: T,
        z_far: T,
    ) -> (r: Self)
        requires
            perspective_fits::<T>(
                sin_fov.val(),
                cos_fov.val(),
                aspect_ratio.val(),
                z_far.val(),
                z_near.val() - z_far.val(),
            ),
            T::fits(-1),
            T::fits(trunc_div(z_far.val(), z_near.val() - z_far.val()) * z_near.val()),
            invertible_in::<T>(
                perspective_rh_spec(
                    sin_fov.val(),
                    cos_fov.val(),
                    aspect_ratio.val(),
                    z_near.val(),
                    z_far.val(),
                ),
            ),
        ensures
            r.matrix() == perspective_rh_spec(
                sin_fov.val(),
                cos_fov.val(),
                aspect_ratio.val(),
                z_near.val(),
                z_far.val(),
            ),
            r.inverse_matrix() == r.matrix().adjugate().scale(trunc_div(1, r.matrix().det())),
    {
        let h = cos_fov.div(sin_fov);
        let w = h.div(aspect_ratio);
        let r = z_far.div(z_near.sub(z_far));
        let o = T::zero();
        let l = T::one();
        Self::new([[w, o, o, o], [o, h, o, o], [o, o, r, o.sub(l)], [o, o, r.mul(z_near), o]])
    }

    /// The perspective projection for a right-handed frame with the vertical
    /// field of view `fov_y`.
    pub fn perspective_rh(fov_y: Angle<T>, aspect_ratio: T, z_near: T, z_far: T) -> (r: Self)
        where T: Trig
        requires
            T::fits(2),
            T::fits(trunc_div(fov_y@, 2)),
            perspective_fits::<T>(
                half_of::<T>(fov_y@).sin_spec().val(),
                half_of::<T>(fov_y@).cos_spec().val(),
                aspect_ratio.val(),
                z_far.val(),
                z_near.val() - z_far.val(),
            ),
            T::fits(-1),
            T::fits(trunc_div(z_far.val(), z_near.val() - z_far.val()) * z_near.val()),
            invertible_in::<T>(
                perspective_rh_spec(
                    half_of::<T>(fov_y@).sin_spec().val(),
                    half_of::<T>(fov_y@).cos_spec().val(),
                    aspect_ratio.val(),
                    z_near.val(),
                    z_far.val(),
                ),
            ),
        ensures
            r.matrix() == perspective_rh_spec(
                half_of::<T>(fov_y@).sin_spec().val(),
                half_of::<T>(fov_y@).cos_spec().val(),
                aspect_ratio.val(),
                z_near.val(),
                z_far.val(),
            ),
            r.inverse_matrix() == r.matrix().adjugate().scale(trunc_div(1, r.matrix().det())),
    {
        let two = T::one().add(T::one());
        let fov = fov_y.radians().div(two);
        proof {
            lemma_is_of_int(fov);
        }
        let sin_fov = fov.sin();
        let cos_fov = fov.cos();
        Self::perspective_rh_from_sin_cos(sin_fov, cos_fov, aspect_ratio, z_near, z_far)
    }

    /// The orthographic projection of the box between the given planes, for a
    /// left-handed frame.
    pub fn orthographic_lh(left: T, right: T, bottom: T, top: T, near: T, far: T) -> (r: Self)
        requires
            T::fits(far.val() - near.val()),
            orthographic_fits::<T>(
                left.val(),
                right.val(),
                bottom.val(),
                top.val(),
                near.val(),
                far.val() - near.val(),
            ),
            invertible_in::<T>(
                orthographic_lh_spec(
                    left.val(),
                    right.val(),
                    bottom.val(),
                    top.val(),
                    near.val(),
                    far.val(),
                ),
            ),
        ensures
            r.matrix() == orthographic_lh_spec(
                left.val(),
                right.val(),
                bottom.val(),
                top.val(),
                near.val(),
                far.val(),
            ),
            r.inverse_matrix() == r.matrix().adjugate().scale(trunc_div(1, r.matrix().det())),
            r.matrix().is_affine(),
            r.matrix().det() == 1 || r.matrix().det() == -1 ==> r.is_exact(),
    {
        let l = T::one();
        let o = T::zero();
        let two = l.add(l);
        let width = right.sub(left);
        let height = top.sub(bottom);
        let depth = far.sub(near);
        Self::new(
            [
                [two.div(width), o, o, o],
                [o, two.div(height), o, o],
                [o, o, l.div(depth), o],
                [
                    o.sub(left.add(right).div(width)),
                    o.sub(top.add(bottom).div(height)),
                    o.sub(near.div(depth)),
                    l,
                ],
            ],
        )
    }

    /// The orthographic projection of the box between the given planes, for a
    /// right-handed frame.
    pub fn orthographic_rh(left: T, right: T, bottom: T, top: T, near: T, far: T) -> (r: Self)
        requires
            T::fits(near.val() - far.val()),
            orthographic_fits::<T>(
                left.val(),
                right.val(),
                bottom.val(),
                top.val(),
                near.val(),
                near.val() - far.val(),
            ),
            invertible_in::<T>(
                orthographic_rh_spec(
                    left.val(),
                    right.val(),
                    bottom.val(),
                    top.val(),
                    near.val(),
                    far.val(),
                ),
            ),
        ensures
            r.matrix() == orthographic_rh_spec(
                left.val(),
                right.val(),
                bottom.val(),
                top.val(),
                near.val(),
                far.val(),
            ),
            r.inverse_matrix() == r.matrix().adjugate().scale(trunc_div(1, r.matrix().det())),
            r.matrix().is_affine(),
            r.matrix().det() == 1 || r.matrix().det() == -1 ==> r.is_exact(),
    {
        let l = T::one();
        let o = T::zero();
        let two = l.add(l);
        let width = right.sub(left);
        let height = top.sub(bottom);
        let depth = near.sub(far);
        Self::new(
            [
                [two.div(width), o, o, o],
                [o, two.div(height), o, o],
                [o, o, l.div(depth), o],
                [
                    o.sub(left.add(right).div(width)),
                    o.sub(top.add(bottom).div(height)),
                    near.div(depth),
                    l,
                ],
            ],
        )
    }

    /// The determinant of the forward matrix.
    pub fn determinant(&self) -> (r: T)
        requires
            det_fits::<T>(self.matrix()),
        ensures
            r.val() == self.matrix().det(),
    {
        Self::mat_determinant(self.mat)
    }

    /// The ordinary point that `p` is taken to, or an error when its image
    /// has `w` zero or negative and so stands for no point.
    pub fn transform_point3(&self, p: Point3<T, Src>) -> (r: Result<Point3<T, Dst>, ()>)
        requires
            apply_point3_fits::<T>(self.matrix(), p@),
        ensures
            r is Ok <==> self.matrix().apply_point(p@).w > 0,
            r matches Ok(q) ==> q@ == to_point3_spec(self.matrix().apply_point(p@)),
            r matches Ok(q) ==> self.matrix().apply_point(p@).w == 1 ==> q@ == (Vec3 {
                x: self.matrix().apply_point(p@).x,
                y: self.matrix().apply_point(p@).y,
                z: self.matrix().apply_point(p@).z,
            }),
    {
        Point3::try_from(Transform::transform(self, p))
    }

    /// The matrix form of a translation.
    pub fn from_translation(t: Translation3<T, Src, Dst>) -> (r: Self)
        requires
            t@.neg().fits::<T>(),
        ensures
            r.matrix() == Mat4::translation(t@),
            r.inverse_matrix() == Mat4::translation(t@.neg()),
            r.is_exact(),
    {
        Self::translation(t.to_vector())
    }

    /// The matrix form of a uniform scale.
    pub fn from_scale(t: Scale<T, Src, Dst>) -> (r: Self)
        requires
            t@ != 0,
            T::fits(trunc_div(1, t@)),
        ensures
            r.matrix() == Mat4::scaling(t@, t@, t@),
            r.inverse_matrix() == Mat4::scaling(
                trunc_div(1, t@),
                trunc_div(1, t@),
                trunc_div(1, t@),
            ),
    {
        Self::scale(t, t, t)
    }

    /// The matrix form of a quaternion rotation: it sends every direction to
    /// where the quaternion turns it. The cached inverse is the transpose,
    /// which undoes the matrix of a unit quaternion; such a matrix has
    /// determinant one.
    pub fn from_rotation(t: Rotation3<T, Src, Dst>) -> (r: Self)
        requires
            quat_matrix_fits::<T>(t@),
        ensures
            r.matrix() == mat4_of_quat(t@),
            r.inverse_matrix() == mat4_of_quat(t@).transpose(),
            forall|v: Vec3| #[trigger] r.matrix().apply_vector(v) == t@.rotate(v),
            t@.is_unit() ==> r.is_exact() && r.matrix().det() == 1,
    {
        proof {
            if t@.is_unit() {
                lemma_quat_matrix_exact(t@);
                lemma_quat_matrix_det(t@);
            }
            assert forall|v: Vec3| #[trigger]
                mat4_of_quat(t@).apply_vector(v) == t@.rotate(v) by {
                lemma_quaternion_matrix_agrees(t@, v);
            }
        }
        let v = t.vector_part();
        let v2 = v + v;
        let vi = v2 * t.i;
        let vj = v2 * t.j;
        let kk = t.k.mul(v2.z);
        let va = v2 * t.a;
        let ii = vi.x;
        let ij = vi.y;
        let ik = vi.z;
        let jj = vj.y;
        let jk = vj.z;
        let ai = va.x;
        let aj = va.y;
        let ak = va.z;
        let l = T::one();
        let o = T::zero();
        proof {
            let q = t@;
            lemma_double_product(q.i, q.i);
            lemma_double_product(q.j, q.i);
            lemma_double_product(q.k, q.i);
            lemma_double_product(q.j, q.j);
            lemma_double_product(q.k, q.j);
            lemma_double_product(q.k, q.k);
            lemma_double_product(q.i, q.a);
            lemma_double_product(q.j, q.a);
            lemma_double_product(q.k, q.a);
            lemma_double_product(q.i, q.j);
            lemma_double_product(q.i, q.k);
            lemma_double_product(q.j, q.k);
        }
        let m11 = l.sub(jj.add(kk));
        let m12 = ij.add(ak);
        let m13 = ik.sub(aj);
        let m21 = ij.sub(ak);
        let m22 = l.sub(ii.add(kk));
        let m23 = jk.add(ai);
        let m31 = ik.add(aj);
        let m32 = jk.sub(ai);
        let m33 = l.sub(ii.add(jj));
        let mat = [[m11, m12, m13, o], [m21, m22, m23, o], [m31, m32, m33, o], [o, o, o, l]];
        Self::new_raw(mat, Self::mat_transpose(mat))
    }

    /// Determinant of a 4x4 array.
    pub fn mat_determinant(m: [[T; 4]; 4]) -> (r: T)
        requires
            det_fits::<T>(mat4_of(m)),
        ensures
            r.val() == mat4_of(m).det(),
    {
        let m11 = m[0][0];
        let m12 = m[0][1];
        let m13 = m[0][2];
        let m14 = m[0][3];
        let m21 = m[1][0];
        let m22 = m[1][1];
        let m23 = m[1][2];
        let m24 = m[1][3];
        let m31 = m[2][0];
        let m32 = m[2][1];
        let m33 = m[2][2];
        let m34 = m[2][3];
        let m41 = m[3][0];
        let m42 = m[3][1];
        let m43 = m[3][2];
        let m44 = m[3][3];
        let t1 = prod4(m14, m23, m32, m41);
        let t2 = prod4(m13, m24, m32, m41);
        let t3 = prod4(m14, m22, m33, m41);
        let t4 = prod4(m12, m24, m33, m41);
        let t5 = prod4(m13, m22, m34, m41);
        let t6 = prod4(m12, m23, m34, m41);
        let t7 = prod4(m14, m23, m31, m42);
        let t8 = prod4(m13, m24, m31, m42);
        let t9 = prod4(m14, m21, m33, m42);
        let t10 = prod4(m11, m24, m33, m42);
        let t11 = prod4(m13, m21, m34, m42);
        let t12 = prod4(m11, m23, m34, m42);
        let t13 = prod4(m14, m22, m31, m43);
        let t14 = prod4(m12, m24, m31, m43);
        let t15 = prod4(m14, m21, m32, m43);
        let t16 = prod4(m11, m24, m32, m43);
        let t17 = prod4(m12, m21, m34, m43);
        let t18 = prod4(m11, m22, m34, m43);
        let t19 = prod4(m13, m22, m31, m44);
        let t20 = prod4(m12, m23, m31, m44);
        let t21 = prod4(m13, m21, m32, m44);
        let t22 = prod4(m11, m23, m32, m44);
        let t23 = prod4(m12, m21, m33, m44);
        let t24 = prod4(m11, m22, m33, m44);
        let s2 = t1.sub(t2);
        let s3 = s2.sub(t3);
        let s4 = s3.add(t4);
        let s5 = s4.add(t5);
        let s6 = s5.sub(t6);
        let s7 = s6.sub(t7);
        let s8 = s7.add(t8);
        let s9 = s8.add(t9);
        let s10 = s9.sub(t10);
        let s11 = s10.sub(t11);
        let s12 = s11.add(t12);
        let s13 = s12.add(t13);
        let s14 = s13.sub(t14);
        let s15 = s14.sub(t15);
        let s16 = s15.add(t16);
        let s17 = s16.add(t17);
        let s18 = s17.sub(t18);
        let s19 = s18.sub(t19);
        let s20 = s19.add(t20);
        let s21 = s20.add(t21);
        let s22 = s21.sub(t22);
        let s23 = s22.sub(t23);
        let s24 = s23.add(t24);
        proof {
            lemma_det_expanded(mat4_of(m));
        }
        s24
    }

    /// Inverse of a 4x4 array: the adjugate scaled by the reciprocal of the
    /// determinant, or nothing when the determinant is zero.
    pub fn mat_inverse(m: [[T; 4]; 4]) -> (r: Option<[[T; 4]; 4]>)
        requires
            det_fits::<T>(mat4_of(m)),
            mat4_of(m).det() != 0 ==> inverse_fits::<T>(mat4_of(m)),
        ensures
            r.is_none() <==> mat4_of(m).det() == 0,
            r matches Some(inv) ==> mat4_of(inv) == mat4_of(m).adjugate().scale(
                trunc_div(1, mat4_of(m).det()),
            ),
    {
        let det = Self::mat_determinant(m);
        if det.eq(T::zero()) {
            return None;
        }
        let m11 = m[0][0];
        let m12 = m[0][1];
        let m13 = m[0][2];
        let m14 = m[0][3];
        let m21 = m[1][0];
        let m22 = m[1][1];
        let m23 = m[1][2];
        let m24 = m[1][3];
        let m31 = m[2][0];
        let m32 = m[2][1];
        let m33 = m[2][2];
        let m34 = m[2][3];
        let m41 = m[3][0];
        let m42 = m[3][1];
        let m43 = m[3][2];
        let m44 = m[3][3];
        let inv_det = T::one().div(det);
        let i11 = cofactor_even(
            inv_det,
            (m23, m34, m42),
            (m24, m33, m42),
            (m24, m32, m43),
            (m22, m34, m43),
            (m23, m32, m44),
            (m22, m33, m44),
        );
        let i12 = cofactor_odd(
            inv_det,
            (m14, m33, m42),
            (m13, m34, m42),
            (m14, m32, m43),
            (m12, m34, m43),
            (m13, m32, m44),
            (m12, m33, m44),
        );
        let i13 = cofactor_even(
            inv_det,
            (m13, m24, m42),
            (m14, m23, m42),
            (m14, m22, m43),
            (m12, m24, m43),
            (m13, m22, m44),
            (m12, m23, m44),
        );
        let i14 = cofactor_odd(
            inv_det,
            (m14, m23, m32),
            (m13, m24, m32),
            (m14, m22, m33),
            (m12, m24, m33),
            (m13, m22, m34),
            (m12, m23, m34),
        );
        let i21 = cofactor_odd(
            inv_det,
            (m24, m33, m41),
            (m23, m34, m41),
            (m24, m31, m43),
            (m21, m34, m43),
            (m23, m31, m44),
            (m21, m33, m44),
        );
        let i22 = cofactor_even(
            inv_det,
            (m13, m34, m41),
            (m14, m33, m41),
            (m14, m31, m43),
            (m11, m34, m43),
            (m13, m31, m44),
            (m11, m33, m44),
        );
        let i23 = cofactor_odd(
            inv_det,
            (m14, m23, m41),
            (m13, m24, m41),
            (m14, m21, m43),
            (m11, m24, m43),
            (m13, m21, m44),
            (m11, m23, m44),
        );
        let i24 = cofactor_even(
            inv_det,
            (m13, m24, m31),
            (m14, m23, m31),
            (m14, m21, m33),
            (m11, m24, m33),
            (m13, m21, m34),
            (m11, m23, m34),
        );
        let i31 = cofactor_even(
            inv_det,
            (m22, m34, m41),
            (m24, m32, m41),
            (m24, m31, m42),
            (m21, m34, m42),
            (m22, m31, m44),
            (m21, m32, m44),
        );
        let i32 = cofactor_odd(
            inv_det,
            (m14, m32, m41),
            (m12, m34, m41),
            (m14, m31, m42),
            (m11, m34, m42),
            (m12, m31, m44),
            (m11, m32, m44),
        );
        let i33 = cofactor_even(
            inv_det,
            (m12, m24, m41),
            (m14, m22, m41),
            (m14, m21, m42),
            (m11, m24, m42),
            (m12, m21, m44),
            (m11, m22, m44),
        );
        let i34 = cofactor_odd(
            inv_det,
            (m14, m22, m31),
            (m12, m24, m31),
            (m14, m21, m32),
            (m11, m24, m32),
            (m12, m21, m34),
            (m11, m22, m34),
        );
        let i41 = cofactor_odd(
            inv_det,
            (m23, m32, m41),
            (m22, m33, m41),
            (m23, m31, m42),
            (m21, m33, m42),
            (m22, m31, m43),
            (m21, m32, m43),
        );
        let i42 = cofactor_even(
            inv_det,
            (m12, m33, m41),
            (m13, m32, m41),
            (m13, m31, m42),
            (m11, m33, m42),
            (m12, m31, m43),
            (m11, m32, m43),
        );
        let i43 = cofactor_odd(
            inv_det,
            (m13, m22, m41),
            (m12, m23, m41),
            (m13, m21, m42),
            (m11, m23, m42),
            (m12, m21, m43),
            (m11, m22, m43),
        );
        let i44 = cofactor_even(
            inv_det,
            (m12, m23, m31),
            (m13, m22, m31),
            (m13, m21, m32),
            (m11, m23, m32),
            (m12, m21, m33),
            (m11, m22, m33),
        );
        let inv = [
            [i11, i12, i13, i14],
            [i21, i22, i23, i24],
            [i31, i32, i33, i34],
            [i41, i42, i43, i44],
        ];
        proof {
            lemma_adjugate_expanded(mat4_of(m));
        }
        Some(inv)
    }

    /// Transpose of a 4x4 array.
    pub fn mat_transpose(m: [[T; 4]; 4]) -> (r: [[T; 4]; 4])
        ensures
            mat4_of(r) == mat4_of(m).transpose(),
    {
        let m11 = m[0][0];
        let m12 = m[0][1];
        let m13 = m[0][2];
        let m14 = m[0][3];
        let m21 = m[1][0];
        let m22 = m[1][1];
        let m23 = m[1][2];
        let m24 = m[1][3];
        let m31 = m[2][0];
        let m32 = m[2][1];
        let m33 = m[2][2];
        let m34 = m[2][3];
        let m41 = m[3][0];
        let m42 = m[3][1];
        let m43 = m[3][2];
        let m44 = m[3][3];
        [[m11, m21, m31, m41], [m12, m22, m32, m42], [m13, m23, m33, m43], [m14, m24, m34, m44]]
    }

    /// Product of two 4x4 arrays.
    pub fn matmul(a: [[T; 4]; 4], b: [[T; 4]; 4]) -> (r: [[T; 4]; 4])
        requires
            mat4_mul_fits::<T>(mat4_of(a), mat4_of(b)),
        ensures
            mat4_of(r) == mat4_of(a).mul(mat4_of(b)),
    {
        let a11 = a[0][0];
        let a12 = a[0][1];
        let a13 = a[0][2];
        let a14 = a[0][3];
        let a21 = a[1][0];
        let a22 = a[1][1];
        let a23 = a[1][2];
        let a24 = a[1][3];
        let a31 = a[2][0];
        let a32 = a[2][1];
        let a33 = a[2][2];
        let a34 = a[2][3];
        let a41 = a[3][0];
        let a42 = a[3][1];
        let a43 = a[3][2];
        let a44 = a[3][3];
        let b11 = b[0][0];
        let b12 = b[0][1];
        let b13 = b[0][2];
        let b14 = b[0][3];
        let b21 = b[1][0];
        let b22 = b[1][1];
        let b23 = b[1][2];
        let b24 = b[1][3];
        let b31 = b[2][0];
        let b32 = b[2][1];
        let b33 = b[2][2];
        let b34 = b[2][3];
        let b41 = b[3][0];
        let b42 = b[3][1];
        let b43 = b[3][2];
        let b44 = b[3][3];
        let c11 = dot4(a11, b11, a12, b21, a13, b31, a14, b41);
        let c12 = dot4(a11, b12, a12, b22, a13, b32, a14, b42);
        let c13 = dot4(a11, b13, a12, b23, a13, b33, a14, b43);
        let c14 = dot4(a11, b14, a12, b24, a13, b34, a14, b44);
        let c21 = dot4(a21, b11, a22, b21, a23, b31, a24, b41);
        let c22 = dot4(a21, b12, a22, b22, a23, b32, a24, b42);
        let c23 = dot4(a21, b13, a22, b23, a23, b33, a24, b43);
        let c24 = dot4(a21, b14, a22, b24, a23, b34, a24, b44);
        let c31 = dot4(a31, b11, a32, b21, a33, b31, a34, b41);
        let c32 = dot4(a31, b12, a32, b22, a33, b32, a34, b42);
        let c33 = dot4(a31, b13, a32, b23, a33, b33, a34, b43);
        let c34 = dot4(a31, b14, a32, b24, a33, b34, a34, b44);
        let c41 = dot4(a41, b11, a42, b21, a43, b31, a44, b41);
        let c42 = dot4(a41, b12, a42, b22, a43, b32, a44, b42);
        let c43 = dot4(a41, b13, a42, b23, a43, b33, a44, b43);
        let c44 = dot4(a41, b14, a42, b24, a43, b34, a44, b44);
        [[c11, c12, c13, c14], [c21, c22, c23, c24], [c31, c32, c33, c34], [c41, c42, c43, c44]]
    }
}

impl<T: Scalar, Src, Dst> View for Transform3<T, Src, Dst> {
    type V = Transform3Model;

    /// The pair of integer matrices.
    open spec fn view(&self) -> Transform3Model {
        Transform3Model { mat: self.matrix(), inv: self.inverse_matrix() }
    }
}

impl<T: Scalar, Src, Dst> PartialEqSpecImpl for Transform3<T, Src, Dst> {
    open spec fn obeys_eq_spec() -> bool {
        true
    }

    open spec fn eq_spec(&self, other: &Self) -> bool {
        self.matrix() == other.matrix()
    }
}

/// Two transforms are equal when their forward matrices are.
impl<T: Scalar, Src, Dst> PartialEq for Transform3<T, Src, Dst> {
    fn eq(&self, other: &Self) -> (r: bool) {
        let a = &self.mat;
        let b = &other.mat;
        a[0][0].eq(b[0][0]) && a[0][1].eq(b[0][1]) && a[0][2].eq(b[0][2]) && a[0][3].eq(b[0][3])
            && a[1][0].eq(b[1][0]) && a[1][1].eq(b[1][1]) && a[1][2].eq(b[1][2]) && a[1][3].eq(
            b[1][3],
        ) && a[2][0].eq(b[2][0]) && a[2][1].eq(b[2][1]) && a[2][2].eq(b[2][2]) && a[2][3].eq(
            b[2][3],
        ) && a[3][0].eq(b[3][0]) && a[3][1].eq(b[3][1]) && a[3][2].eq(b[3][2]) && a[3][3].eq(
            b[3][3],
        )
    }
}

impl<T: Scalar, Src, Dst> Eq for Transform3<T, Src, Dst> {
}

impl<T: Scalar, Src, Dst> Transformation<T, Src, Dst> for Transform3<T, Src, Dst> {
    type Inverse = Transform3<T, Dst, Src>;

    open spec fn is_identity_spec(&self) -> bool {
        self.matrix() == Mat4::identity()
    }

    open spec fn inverse_req(&self) -> bool {
        true
    }

    open spec fn inverse_ensures(&self, r: Transform3<T, Dst, Src>) -> bool {
        r.matrix() == self.inverse_matrix() && r.inverse_matrix() == self.matrix()
    }

    fn identity() -> (r: Self) {
        proof {
            T::lemma_unit_fits();
        }
        Self::translation(Vector3::zero())
    }

    fn is_identity(&self) -> (b: bool) {
        Transform3::is_identity(self)
    }

    /// The two matrices change places; nothing is recomputed.
    fn inverse(&self) -> (r: Transform3<T, Dst, Src>) {
        Transform3::new_raw(self.mat_inv, self.mat)
    }
}

impl<T: Scalar, Src, Dst> Transform<Point3<T, Src>> for Transform3<T, Src, Dst> {
    type Output = HomogeneousVector<T, Dst>;

    open spec fn transform_req(&self, p: Point3<T, Src>) -> bool {
        apply_point3_fits::<T>(self.matrix(), p@)
    }

    open spec fn transform_ensures(&self, p: Point3<T, Src>, r: HomogeneousVector<T, Dst>) -> bool {
        r@ == self.matrix().apply_point(p@)
    }

    /// The image of a point, before the division by `w`.
    fn transform(&self, p: Point3<T, Src>) -> (r: HomogeneousVector<T, Dst>) {
        let m = &self.mat;
        let x = dot3(p.x, m[0][0], p.y, m[1][0], p.z, m[2][0]).add(m[3][0]);
        let y = dot3(p.x, m[0][1], p.y, m[1][1], p.z, m[2][1]).add(m[3][1]);
        let z = dot3(p.x, m[0][2], p.y, m[1][2], p.z, m[2][2]).add(m[3][2]);
        let w = dot3(p.x, m[0][3], p.y, m[1][3], p.z, m[2][3]).add(m[3][3]);
        HomogeneousVector::new(x, y, z, w)
    }
}

impl<T: Scalar, Src, Dst> Transform<Vector3<T, Src>> for Transform3<T, Src, Dst> {
    type Output = Vector3<T, Dst>;

    open spec fn transform_req(&self, v: Vector3<T, Src>) -> bool {
        apply_vector3_fits::<T>(self.matrix(), v@)
    }

    open spec fn transform_ensures(&self, v: Vector3<T, Src>, r: Vector3<T, Dst>) -> bool {
        r@ == self.matrix().apply_vector(v@)
    }

    /// A direction ignores the last row and column.
    fn transform(&self, v: Vector3<T, Src>) -> (r: Vector3<T, Dst>) {
        let m = &self.mat;
        let x = dot3(v.x, m[0][0], v.y, m[1][0], v.z, m[2][0]);
        let y = dot3(v.x, m[0][1], v.y, m[1][1], v.z, m[2][1]);
        let z = dot3(v.x, m[0][2], v.y, m[1][2], v.z, m[2][2]);
        Vector3::new(x, y, z)
    }
}

impl<T: Scalar, Src, Dst> Transform<Vector3<T, Normal<Src>>> for Transform3<T, Src, Dst> {
    type Output = Vector3<T, Normal<Dst>>;

    open spec fn transform_req(&self, n: Vector3<T, Normal<Src>>) -> bool {
        apply_transposed3_fits::<T>(self.inverse_matrix(), n@)
    }

    open spec fn transform_ensures(
        &self,
        n: Vector3<T, Normal<Src>>,
        r: Vector3<T, Normal<Dst>>,
    ) -> bool {
        r@ == self.inverse_matrix().apply_transposed(n@)
    }

    /// A normal goes through the transpose of the cached inverse.
    fn transform(&self, n: Vector3<T, Normal<Src>>) -> (r: Vector3<T, Normal<Dst>>) {
        let m = &self.mat_inv;
        let x = dot3(n.x, m[0][0], n.y, m[0][1], n.z, m[0][2]);
        let y = dot3(n.x, m[1][0], n.y, m[1][1], n.z, m[1][2]);
        let z = dot3(n.x, m[2][0], n.y, m[2][1], n.z, m[2][2]);
        Vector3::new(x, y, z)
    }
}

impl<T: Scalar, Src, Dst> Transform<Box3<T, Src>> for Transform3<T, Src, Dst> {
    type Output = Option<Box3<T, Dst>>;

    open spec fn transform_req(&self, b: Box3<T, Src>) -> bool {
        forall|i: int|
            0 <= i < 8
                ==> apply_point3_fits::<T>(self.matrix(), #[trigger] corners3(b.min@, b.max@)[i])
    }

    open spec fn transform_ensures(&self, b: Box3<T, Src>, r: Option<Box3<T, Dst>>) -> bool {
        let images = corners3(b.min@, b.max@).map_values(|c: Vec3| self.matrix().apply_point(c));
        &&& r is Some <==> forall|i: int| 0 <= i < 8 ==> (#[trigger] images[i]).w > 0
        &&& r matches Some(fit) ==> tight_bounds3(
            images.map_values(|h: Vec4| to_point3_spec(h)),
            fit.min@,
            fit.max@,
        )
    }

    /// The tight box around the images of all eight corners, or nothing when
    /// one of them falls at or behind the plane `w = 0`.
    fn transform(&self, b: Box3<T, Src>) -> (r: Option<Box3<T, Dst>>)
        ensures
            self.matrix().is_affine() ==> r is Some,
    {
        let min = b.min;
        let max = b.max;
        proof {
            let cs = corners3(b.min@, b.max@);
            if self.matrix().is_affine() {
                assert forall|i: int| 0 <= i < 8 implies self.matrix().apply_point(
                    #[trigger] cs[i],
                ).w == 1 by {
                    lemma_affine_keeps_w(self.matrix(), cs[i]);
                }
            }
            assert(apply_point3_fits::<T>(self.matrix(), cs[0]));
            assert(apply_point3_fits::<T>(self.matrix(), cs[1]));
            assert(apply_point3_fits::<T>(self.matrix(), cs[2]));
            assert(apply_point3_fits::<T>(self.matrix(), cs[3]));
            assert(apply_point3_fits::<T>(self.matrix(), cs[4]));
            assert(apply_point3_fits::<T>(self.matrix(), cs[5]));
            assert(apply_point3_fits::<T>(self.matrix(), cs[6]));
            assert(apply_point3_fits::<T>(self.matrix(), cs[7]));
        }
        let points = [
            self.transform_point3(min),
            self.transform_point3(Point3::new(min.x, min.y, max.z)),
            self.transform_point3(Point3::new(min.x, max.y, min.z)),
            self.transform_point3(Point3::new(min.x, max.y, max.z)),
            self.transform_point3(Point3::new(max.x, min.y, min.z)),
            self.transform_point3(Point3::new(max.x, min.y, max.z)),
            self.transform_point3(Point3::new(max.x, max.y, min.z)),
            self.transform_point3(max),
        ];
        let slice = points.as_slice();
        let fitted = Box3::try_from_points(slice);
        proof {
            let images = corners3(b.min@, b.max@).map_values(
                |c: Vec3| self.matrix().apply_point(c),
            );
            assert forall|i: int| 0 <= i < 8 implies ((#[trigger] slice@[i]) is Ok <==> images[i].w
                > 0) by {}
            if fitted is Ok {
                assert forall|i: int| 0 <= i < 8 implies (#[trigger] images[i]).w > 0 by {
                    assert(slice@[i] is Ok);
                }
                assert(views3(ok_points3(slice@)) =~= images.map_values(
                    |h: Vec4| to_point3_spec(h),
                ));
            } else {
                let k = choose|k: int| crate::bounds::first_err_at3(slice@, k);
                assert(slice@[k] is Err);
                assert(!(images[k].w > 0));
                assert(images[k] == self.matrix().apply_point(corners3(b.min@, b.max@)[k]));
            }
        }
        match fitted {
            Ok(fit) => Some(fit),
            Err(_) => None,
        }
    }
}

impl<T: Scalar, A, B, C> MulSpecImpl<Transform3<T, B, C>> for Transform3<T, A, B> {
    open spec fn obeys_mul_spec() -> bool {
        true
    }

    open spec fn mul_req(self, rhs: Transform3<T, B, C>) -> bool {
        &&& mat4_mul_fits::<T>(self.matrix(), rhs.matrix())
        &&& mat4_mul_fits::<T>(rhs.inverse_matrix(), self.inverse_matrix())
    }

    open spec fn mul_spec(self, rhs: Transform3<T, B, C>) -> Transform3<T, A, C> {
        choose|r: Transform3<T, A, C>| r@ == self@.compose(rhs@)
    }
}

/// `a * b` applies `a` first and `b` second. The cached inverse of the product
/// is the product of the cached inverses in the opposite order; nothing is
/// inverted anew.
impl<T: Scalar, A, B, C> Mul<Transform3<T, B, C>> for Transform3<T, A, B> {
    type Output = Transform3<T, A, C>;

    fn mul(self, rhs: Transform3<T, B, C>) -> (r: Transform3<T, A, C>)
        ensures
            r.matrix() == self.matrix().mul(rhs.matrix()),
            r.inverse_matrix() == rhs.inverse_matrix().mul(self.inverse_matrix()),
            self.is_exact() && rhs.is_exact() ==> r.is_exact(),
    {
        proof {
            if self.is_exact() && rhs.is_exact() {
                lemma_composition_exact3(self@, rhs@);
            }
        }
        let mat = Transform3::<T, A, B>::matmul(self.mat, rhs.mat);
        let mat_inv = Transform3::<T, A, B>::matmul(rhs.mat_inv, self.mat_inv);
        let r = Transform3::new_raw(mat, mat_inv);
        proof {
            r.lemma_view_injective(choose|c: Transform3<T, A, C>| c@ == self@.compose(rhs@));
        }
        r
    }
}

impl<'a, T: Scalar, A, B, C> MulSpecImpl<Transform3<T, B, C>> for &'a Transform3<T, A, B> {
    open spec fn obeys_mul_spec() -> bool {
        true
    }

    open spec fn mul_req(self, rhs: Transform3<T, B, C>) -> bool {
        &&& mat4_mul_fits::<T>(self.matrix(), rhs.matrix())
        &&& mat4_mul_fits::<T>(rhs.inverse_matrix(), self.inverse_matrix())
    }

    open spec fn mul_spec(self, rhs: Transform3<T, B, C>) -> Transform3<T, A, C> {
        choose|r: Transform3<T, A, C>| r@ == self@.compose(rhs@)
    }
}

impl<'a, T: Scalar, A, B, C> Mul<Transform3<T, B, C>> for &'a Transform3<T, A, B> {
    type Output = Transform3<T, A, C>;

    fn mul(self, rhs: Transform3<T, B, C>) -> (r: Transform3<T, A, C>)
        ensures
            r.matrix() == self.matrix().mul(rhs.matrix()),
            r.inverse_matrix() == rhs.inverse_matrix().mul(self.inverse_matrix()),
            self.is_exact() && rhs.is_exact() ==> r.is_exact(),
    {
        let r = *self * rhs;
        proof {
            r.lemma_view_injective(choose|c: Transform3<T, A, C>| c@ == self@.compose(rhs@));
        }
        r
    }
}

impl<'b, T: Scalar, A, B, C> MulSpecImpl<&'b Transform3<T, B, C>> for Transform3<T, A, B> {
    open spec fn obeys_mul_spec() -> bool {
        true
    }

    open spec fn mul_req(self, rhs: &'b Transform3<T, B, C>) -> bool {
        &&& mat4_mul_fits::<T>(self.matrix(), rhs.matrix())
        &&& mat4_mul_fits::<T>(rhs.inverse_matrix(), self.inverse_matrix())
    }

    open spec fn mul_spec(self, rhs: &'b Transform3<T, B, C>) -> Transform3<T, A, C> {
        choose|r: Transform3<T, A, C>| r@ == self@.compose(rhs@)
    }
}

impl<'b, T: Scalar, A, B, C> Mul<&'b Transform3<T, B, C>> for Transform3<T, A, B> {
    type Output = Transform3<T, A, C>;

    fn mul(self, rhs: &'b Transform3<T, B, C>) -> (r: Transform3<T, A, C>)
        ensures
            r.matrix() == self.matrix().mul(rhs.matrix()),
            r.inverse_matrix() == rhs.inverse_matrix().mul(self.inverse_matrix()),
            self.is_exact() && rhs.is_exact() ==> r.is_exact(),
    {
        let r = self * *rhs;
        proof {
            r.lemma_view_injective(choose|c: Transform3<T, A, C>| c@ == self@.compose(rhs@));
        }
        r
    }
}

impl<'a, 'b, T: Scalar, A, B, C> MulSpecImpl<&'b Transform3<T, B, C>> for &'a Transform3<T, A, B> {
    open spec fn obeys_mul_spec() -> bool {
        true
    }

    open spec fn mul_req(self, rhs: &'b Transform3<T, B, C>) -> bool {
        &&& mat4_mul_fits::<T>(self.matrix(), rhs.matrix())
        &&& mat4_mul_fits::<T>(rhs.inverse_matrix(), self.inverse_matrix())
    }

    open spec fn mul_spec(self, rhs: &'b Transform3<T, B, C>) -> Transform3<T, A, C> {
        choose|r: Transform3<T, A, C>| r@ == self@.compose(rhs@)
    }
}

impl<'a, 'b, T: Scalar, A, B, C> Mul<&'b Transform3<T, B, C>> for &'a Transform3<T, A, B> {
    type Output = Transform3<T, A, C>;

    fn mul(self, rhs: &'b Transform3<T, B, C>) -> (r: Transform3<T, A, C>)
        ensures
            r.matrix() == self.matrix().mul(rhs.matrix()),
            r.inverse_matrix() == rhs.inverse_matrix().mul(self.inverse_matrix()),
            self.is_exact() && rhs.is_exact() ==> r.is_exact(),
    {
        let r = *self * *rhs;
        proof {
            r.lemma_view_injective(choose|c: Transform3<T, A, C>| c@ == self@.compose(rhs@));
        }
        r
    }
}

} // verus!

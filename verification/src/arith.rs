//! Small fixed-shape sums and products, evaluated left to right, each with the
//! exact condition under which no intermediate value leaves the scalar type.
use vstd::prelude::*;
use crate::num::Scalar;

verus! {

/// `a * b * c` can be evaluated left to right in `T`.
pub open spec fn prod3_fits<T: Scalar>(a: int, b: int, c: int) -> bool {
    T::fits(a * b) && T::fits(a * b * c)
}

/// `a * b * c * d` can be evaluated left to right in `T`.
pub open spec fn prod4_fits<T: Scalar>(a: int, b: int, c: int, d: int) -> bool {
    T::fits(a * b) && T::fits(a * b * c) && T::fits(a * b * c * d)
}

/// `a1 * b1 + a2 * b2` can be evaluated left to right in `T`.
pub open spec fn dot2_fits<T: Scalar>(a1: int, b1: int, a2: int, b2: int) -> bool {
    T::fits(a1 * b1) && T::fits(a2 * b2) && T::fits(a1 * b1 + a2 * b2)
}

/// `a1 * b1 + a2 * b2 + a3 * b3` can be evaluated left to right in `T`.
pub open spec fn dot3_fits<T: Scalar>(
    a1: int,
    b1: int,
    a2: int,
    b2: int,
    a3: int,
    b3: int,
) -> bool {
    &&& T::fits(a1 * b1)
    &&& T::fits(a2 * b2)
    &&& T::fits(a3 * b3)
    &&& T::fits(a1 * b1 + a2 * b2)
    &&& T::fits(a1 * b1 + a2 * b2 + a3 * b3)
}

/// `a1 * b1 + a2 * b2 + a3 * b3 + a4 * b4` can be evaluated left to right in `T`.
pub open spec fn dot4_fits<T: Scalar>(
    a1: int,
    b1: int,
    a2: int,
    b2: int,
    a3: int,
    b3: int,
    a4: int,
    b4: int,
) -> bool {
    &&& T::fits(a1 * b1)
    &&& T::fits(a2 * b2)
    &&& T::fits(a3 * b3)
    &&& T::fits(a4 * b4)
    &&& T::fits(a1 * b1 + a2 * b2)
    &&& T::fits(a1 * b1 + a2 * b2 + a3 * b3)
    &&& T::fits(a1 * b1 + a2 * b2 + a3 * b3 + a4 * b4)
}

/// `a1 * b1 - a2 * b2 - a3 * b3 - a4 * b4` can be evaluated left to right in `T`.
pub open spec fn quat_real_fits<T: Scalar>(
    a1: int,
    b1: int,
    a2: int,
    b2: int,
    a3: int,
    b3: int,
    a4: int,
    b4: int,
) -> bool {
    &&& T::fits(a1 * b1)
    &&& T::fits(a2 * b2)
    &&& T::fits(a3 * b3)
    &&& T::fits(a4 * b4)
    &&& T::fits(a1 * b1 - a2 * b2)
    &&& T::fits(a1 * b1 - a2 * b2 - a3 * b3)
    &&& T::fits(a1 * b1 - a2 * b2 - a3 * b3 - a4 * b4)
}

/// `a1 * b1 + a2 * b2 + a3 * b3 - a4 * b4` can be evaluated left to right in `T`.
pub open spec fn quat_imag_fits<T: Scalar>(
    a1: int,
    b1: int,
    a2: int,
    b2: int,
    a3: int,
    b3: int,
    a4: int,
    b4: int,
) -> bool {
    &&& T::fits(a1 * b1)
    &&& T::fits(a2 * b2)
    &&& T::fits(a3 * b3)
    &&& T::fits(a4 * b4)
    &&& T::fits(a1 * b1 + a2 * b2)
    &&& T::fits(a1 * b1 + a2 * b2 + a3 * b3)
    &&& T::fits(a1 * b1 + a2 * b2 + a3 * b3 - a4 * b4)
}

/// `p + a * c + j * cz - k * cy` can be evaluated left to right in `T`.
pub open spec fn sandwich_fits<T: Scalar>(
    p: int,
    a: int,
    c: int,
    j: int,
    cz: int,
    k: int,
    cy: int,
) -> bool {
    &&& T::fits(a * c)
    &&& T::fits(p + a * c)
    &&& T::fits(j * cz)
    &&& T::fits(p + a * c + j * cz)
    &&& T::fits(k * cy)
    &&& T::fits(p + a * c + j * cz - k * cy)
}

/// `(1 - t) * a + t * b` can be evaluated in `T`.
pub open spec fn lerp_fits<T: Scalar>(a: int, b: int, t: int) -> bool {
    &&& T::fits(1 - t)
    &&& T::fits((1 - t) * a)
    &&& T::fits(t * b)
    &&& T::fits((1 - t) * a + t * b)
}

/// The product `a * b * c`, multiplied left to right.
pub fn prod3<T: Scalar>(a: T, b: T, c: T) -> (r: T)
    requires
        prod3_fits::<T>(a.val(), b.val(), c.val()),
    ensures
        r.val() == a.val() * b.val() * c.val(),
{
    a.mul(b).mul(c)
}

/// The product `a * b * c * d`, multiplied left to right.
pub fn prod4<T: Scalar>(a: T, b: T, c: T, d: T) -> (r: T)
    requires
        prod4_fits::<T>(a.val(), b.val(), c.val(), d.val()),
    ensures
        r.val() == a.val() * b.val() * c.val() * d.val(),
{
    a.mul(b).mul(c).mul(d)
}

/// The sum of products `a1 * b1 + a2 * b2`.
pub fn dot2<T: Scalar>(a1: T, b1: T, a2: T, b2: T) -> (r: T)
    requires
        dot2_fits::<T>(a1.val(), b1.val(), a2.val(), b2.val()),
    ensures
        r.val() == a1.val() * b1.val() + a2.val() * b2.val(),
{
    a1.mul(b1).add(a2.mul(b2))
}

/// The sum of products `a1 * b1 + a2 * b2 + a3 * b3`, summed left to right.
pub fn dot3<T: Scalar>(a1: T, b1: T, a2: T, b2: T, a3: T, b3: T) -> (r: T)
    requires
        dot3_fits::<T>(a1.val(), b1.val(), a2.val(), b2.val(), a3.val(), b3.val()),
    ensures
        r.val() == a1.val() * b1.val() + a2.val() * b2.val() + a3.val() * b3.val(),
{
    a1.mul(b1).add(a2.mul(b2)).add(a3.mul(b3))
}

/// The sum of products `a1 * b1 + a2 * b2 + a3 * b3 + a4 * b4`, summed left
/// to right.
pub fn dot4<T: Scalar>(a1: T, b1: T, a2: T, b2: T, a3: T, b3: T, a4: T, b4: T) -> (r: T)
    requires
        dot4_fits::<T>(
            a1.val(),
            b1.val(),
            a2.val(),
            b2.val(),
            a3.val(),
            b3.val(),
            a4.val(),
            b4.val(),
        ),
    ensures
        r.val() == a1.val() * b1.val() + a2.val() * b2.val() + a3.val() * b3.val() + a4.val()
            * b4.val(),
{
    a1.mul(b1).add(a2.mul(b2)).add(a3.mul(b3)).add(a4.mul(b4))
}

/// The integers three scalars stand for.
pub open spec fn vals3<T: Scalar>(t: (T, T, T)) -> (int, int, int) {
    (t.0.val(), t.1.val(), t.2.val())
}

/// Product of a triple.
pub open spec fn prod_of(t: (int, int, int)) -> int {
    t.0 * t.1 * t.2
}

/// The signed sum of six triple products with signs `+ - + - - +`.
pub open spec fn cofactor_even_sum(
    t1: (int, int, int),
    t2: (int, int, int),
    t3: (int, int, int),
    t4: (int, int, int),
    t5: (int, int, int),
    t6: (int, int, int),
) -> int {
    prod_of(t1) - prod_of(t2) + prod_of(t3) - prod_of(t4) - prod_of(t5) + prod_of(t6)
}

/// The signed sum of six triple products with signs `+ - - + + -`.
pub open spec fn cofactor_odd_sum(
    t1: (int, int, int),
    t2: (int, int, int),
    t3: (int, int, int),
    t4: (int, int, int),
    t5: (int, int, int),
    t6: (int, int, int),
) -> int {
    prod_of(t1) - prod_of(t2) - prod_of(t3) + prod_of(t4) + prod_of(t5) - prod_of(t6)
}

/// `d * cofactor_even_sum(..)` can be evaluated in `T`: each product, each
/// partial sum, and the final scaling.
pub open spec fn cofactor_even_fits<T: Scalar>(
    d: int,
    t1: (int, int, int),
    t2: (int, int, int),
    t3: (int, int, int),
    t4: (int, int, int),
    t5: (int, int, int),
    t6: (int, int, int),
) -> bool {
    let p1 = prod_of(t1);
    let p2 = prod_of(t2);
    let p3 = prod_of(t3);
    let p4 = prod_of(t4);
    let p5 = prod_of(t5);
    let p6 = prod_of(t6);
    &&& prod3_fits::<T>(t1.0, t1.1, t1.2)
    &&& prod3_fits::<T>(t2.0, t2.1, t2.2)
    &&& prod3_fits::<T>(t3.0, t3.1, t3.2)
    &&& prod3_fits::<T>(t4.0, t4.1, t4.2)
    &&& prod3_fits::<T>(t5.0, t5.1, t5.2)
    &&& prod3_fits::<T>(t6.0, t6.1, t6.2)
    &&& T::fits(p1 - p2)
    &&& T::fits(p1 - p2 + p3)
    &&& T::fits(p1 - p2 + p3 - p4)
    &&& T::fits(p1 - p2 + p3 - p4 - p5)
    &&& T::fits(p1 - p2 + p3 - p4 - p5 + p6)
    &&& T::fits(d * (p1 - p2 + p3 - p4 - p5 + p6))
}

/// `d * cofactor_odd_sum(..)` can be evaluated in `T`: each product, each
/// partial sum, and the final scaling.
pub open spec fn cofactor_odd_fits<T: Scalar>(
    d: int,
    t1: (int, int, int),
    t2: (int, int, int),
    t3: (int, int, int),
    t4: (int, int, int),
    t5: (int, int, int),
    t6: (int, int, int),
) -> bool {
    let p1 = prod_of(t1);
    let p2 = prod_of(t2);
    let p3 = prod_of(t3);
    let p4 = prod_of(t4);
    let p5 = prod_of(t5);
    let p6 = prod_of(t6);
    &&& prod3_fits::<T>(t1.0, t1.1, t1.2)
    &&& prod3_fits::<T>(t2.0, t2.1, t2.2)
    &&& prod3_fits::<T>(t3.0, t3.1, t3.2)
    &&& prod3_fits::<T>(t4.0, t4.1, t4.2)
    &&& prod3_fits::<T>(t5.0, t5.1, t5.2)
    &&& prod3_fits::<T>(t6.0, t6.1, t6.2)
    &&& T::fits(p1 - p2)
    &&& T::fits(p1 - p2 - p3)
    &&& T::fits(p1 - p2 - p3 + p4)
    &&& T::fits(p1 - p2 - p3 + p4 + p5)
    &&& T::fits(p1 - p2 - p3 + p4 + p5 - p6)
    &&& T::fits(d * (p1 - p2 - p3 + p4 + p5 - p6))
}

/// `d * (p1 - p2 + p3 - p4 - p5 + p6)` where each `p` is the product of a triple.
pub fn cofactor_even<T: Scalar>(
    d: T,
    t1: (T, T, T),
    t2: (T, T, T),
    t3: (T, T, T),
    t4: (T, T, T),
    t5: (T, T, T),
    t6: (T, T, T),
) -> (r: T)
    requires
        cofactor_even_fits::<T>(
            d.val(),
            vals3(t1),
            vals3(t2),
            vals3(t3),
            vals3(t4),
            vals3(t5),
            vals3(t6),
        ),
    ensures
        r.val() == d.val() * cofactor_even_sum(
            vals3(t1),
            vals3(t2),
            vals3(t3),
            vals3(t4),
            vals3(t5),
            vals3(t6),
        ),
{
    let p1 = prod3(t1.0, t1.1, t1.2);
    let p2 = prod3(t2.0, t2.1, t2.2);
    let p3 = prod3(t3.0, t3.1, t3.2);
    let p4 = prod3(t4.0, t4.1, t4.2);
    let p5 = prod3(t5.0, t5.1, t5.2);
    let p6 = prod3(t6.0, t6.1, t6.2);
    d.mul(p1.sub(p2).add(p3).sub(p4).sub(p5).add(p6))
}

/// `d * (p1 - p2 - p3 + p4 + p5 - p6)` where each `p` is the product of a triple.
pub fn cofactor_odd<T: Scalar>(
    d: T,
    t1: (T, T, T),
    t2: (T, T, T),
    t3: (T, T, T),
    t4: (T, T, T),
    t5: (T, T, T),
    t6: (T, T, T),
) -> (r: T)
    requires
        cofactor_odd_fits::<T>(
            d.val(),
            vals3(t1),
            vals3(t2),
            vals3(t3),
            vals3(t4),
            vals3(t5),
            vals3(t6),
        ),
    ensures
        r.val() == d.val() * cofactor_odd_sum(
            vals3(t1),
            vals3(t2),
            vals3(t3),
            vals3(t4),
            vals3(t5),
            vals3(t6),
        ),
{
    let p1 = prod3(t1.0, t1.1, t1.2);
    let p2 = prod3(t2.0, t2.1, t2.2);
    let p3 = prod3(t3.0, t3.1, t3.2);
    let p4 = prod3(t4.0, t4.1, t4.2);
    let p5 = prod3(t5.0, t5.1, t5.2);
    let p6 = prod3(t6.0, t6.1, t6.2);
    d.mul(p1.sub(p2).sub(p3).add(p4).add(p5).sub(p6))
}

} // verus!

//! Scalar capabilities: the exact-arithmetic contract every coordinate type
//! must meet, the small numeric traits built on it, and their implementations
//! for the signed machine integers.
use vstd::prelude::*;

verus! {

/// Quotient of `a` by `b` rounded toward zero, as machine integers divide.
pub open spec fn trunc_div(a: int, b: int) -> int {
    if a >= 0 {
        a / b
    } else {
        -((-a) / b)
    }
}

/// Absolute value of a mathematical integer.
pub open spec fn abs_int(a: int) -> int {
    if a < 0 {
        -a
    } else {
        a
    }
}

/// A coordinate type whose values stand for mathematical integers and whose
/// arithmetic is exact whenever the exact result is representable.
///
/// `val` is the integer a value stands for; `fits` says which integers the type
/// can represent. Every operation demands that its exact result fits and then
/// returns exactly that result, so nothing built on this trait ever wraps,
/// saturates or aborts.
pub trait Scalar: Copy {
    /// The integer this value stands for.
    spec fn val(self) -> int;

    /// Whether `v` is representable in this type.
    spec fn fits(v: int) -> bool;

    /// Every value stands for a representable integer.
    proof fn lemma_val_fits(self)
        ensures
            Self::fits(self.val()),
    ;

    /// Distinct values stand for distinct integers.
    proof fn lemma_val_injective(self, other: Self)
        requires
            self.val() == other.val(),
        ensures
            self == other,
    ;

    /// The representable integers form an interval: whatever lies between two
    /// of them is one of them.
    proof fn lemma_fits_between(lo: int, v: int, hi: int)
        requires
            Self::fits(lo),
            Self::fits(hi),
            lo <= v <= hi,
        ensures
            Self::fits(v),
    ;

    /// The value that stands for `v`, for every representable `v`.
    spec fn of_int(v: int) -> Self;

    /// `of_int` gives a value that stands for its argument.
    proof fn lemma_of_int(v: int)
        requires
            Self::fits(v),
        ensures
            Self::of_int(v).val() == v,
    ;

    /// Zero and one are representable.
    proof fn lemma_unit_fits()
        ensures
            Self::fits(0),
            Self::fits(1),
    ;

    fn zero() -> (r: Self)
        ensures
            r.val() == 0,
    ;

    fn one() -> (r: Self)
        ensures
            r.val() == 1,
    ;

    fn add(self, rhs: Self) -> (r: Self)
        requires
            Self::fits(self.val() + rhs.val()),
        ensures
            r.val() == self.val() + rhs.val(),
    ;

    fn sub(self, rhs: Self) -> (r: Self)
        requires
            Self::fits(self.val() - rhs.val()),
        ensures
            r.val() == self.val() - rhs.val(),
    ;

    fn mul(self, rhs: Self) -> (r: Self)
        requires
            Self::fits(self.val() * rhs.val()),
        ensures
            r.val() == self.val() * rhs.val(),
    ;

    /// Division rounds toward zero.
    fn div(self, rhs: Self) -> (r: Self)
        requires
            rhs.val() != 0,
            Self::fits(trunc_div(self.val(), rhs.val())),
        ensures
            r.val() == trunc_div(self.val(), rhs.val()),
    ;

    fn neg(self) -> (r: Self)
        requires
            Self::fits(-self.val()),
        ensures
            r.val() == -self.val(),
    ;

    fn abs(self) -> (r: Self)
        requires
            Self::fits(abs_int(self.val())),
        ensures
            r.val() == abs_int(self.val()),
    ;

    fn is_positive(self) -> (b: bool)
        ensures
            b == (self.val() > 0),
    ;

    /// The value as a 128-bit integer, when it has one.
    fn to_i128(self) -> (r: Option<i128>)
        ensures
            r.is_some() <==> i128::MIN <= self.val() <= i128::MAX,
            r matches Some(w) ==> w == self.val(),
    ;

    /// The scalar that stands for `v`, when there is one.
    fn from_i128(v: i128) -> (r: Option<Self>)
        ensures
            r.is_some() <==> Self::fits(v as int),
            r matches Some(x) ==> x.val() == v,
    ;

    fn eq(self, rhs: Self) -> (b: bool)
        ensures
            b == (self.val() == rhs.val()),
    ;

    fn ne(self, rhs: Self) -> (b: bool)
        ensures
            b == (self.val() != rhs.val()),
    ;

    fn lt(self, rhs: Self) -> (b: bool)
        ensures
            b == (self.val() < rhs.val()),
    ;

    fn le(self, rhs: Self) -> (b: bool)
        ensures
            b == (self.val() <= rhs.val()),
    ;

    fn gt(self, rhs: Self) -> (b: bool)
        ensures
            b == (self.val() > rhs.val()),
    ;

    fn ge(self, rhs: Self) -> (b: bool)
        ensures
            b == (self.val() >= rhs.val()),
    ;
}

/// Every value is the one that `of_int` gives for the integer it stands for.
pub proof fn lemma_is_of_int<T: Scalar>(x: T)
    ensures
        x == T::of_int(x.val()),
{
    x.lemma_val_fits();
    T::lemma_of_int(x.val());
    x.lemma_val_injective(T::of_int(x.val()));
}

/// Types with an additive identity.
pub trait Zero: Sized {
    /// Whether this value is the additive identity.
    spec fn is_zero(&self) -> bool;

    fn zero() -> (r: Self)
        ensures
            r.is_zero(),
    ;
}

/// Types with a multiplicative identity.
pub trait One: Sized {
    /// Whether this value is the multiplicative identity.
    spec fn is_one(&self) -> bool;

    fn one() -> (r: Self)
        ensures
            r.is_one(),
    ;
}

/// Rounding to the nearest whole value.
pub trait Round: Sized {
    spec fn round_spec(self) -> Self;

    fn round(self) -> (r: Self)
        ensures
            r == self.round_spec(),
    ;
}

/// Rounding up to a whole value.
pub trait Ceil: Sized {
    spec fn ceil_spec(self) -> Self;

    fn ceil(self) -> (r: Self)
        ensures
            r == self.ceil_spec(),
    ;
}

/// Rounding down to a whole value.
pub trait Floor: Sized {
    spec fn floor_spec(self) -> Self;

    fn floor(self) -> (r: Self)
        ensures
            r == self.floor_spec(),
    ;
}

/// Trigonometry on a scalar type. Each function is a fixed function of its
/// arguments; what that function is, is up to the implementing type.
pub trait Trig: Sized {
    spec fn sin_spec(self) -> Self;

    spec fn cos_spec(self) -> Self;

    spec fn tan_spec(self) -> Self;

    spec fn fast_atan2_spec(y: Self, x: Self) -> Self;

    spec fn degrees_to_radians_spec(deg: Self) -> Self;

    spec fn radians_to_degrees_spec(rad: Self) -> Self;

    fn sin(self) -> (r: Self)
        ensures
            r == self.sin_spec(),
    ;

    fn cos(self) -> (r: Self)
        ensures
            r == self.cos_spec(),
    ;

    fn tan(self) -> (r: Self)
        ensures
            r == self.tan_spec(),
    ;

    /// An approximation of the angle of the point `(x, y)` as seen from the
    /// origin.
    fn fast_atan2(y: Self, x: Self) -> (r: Self)
        ensures
            r == Self::fast_atan2_spec(y, x),
    ;

    fn degrees_to_radians(deg: Self) -> (r: Self)
        ensures
            r == Self::degrees_to_radians_spec(deg),
    ;

    fn radians_to_degrees(rad: Self) -> (r: Self)
        ensures
            r == Self::radians_to_degrees_spec(rad),
    ;
}

/// A quotient by a positive divisor, rounded toward zero, lies between zero
/// and the dividend, and a quotient by one is the dividend.
pub proof fn lemma_quotient_by_positive(x: int, w: int)
    requires
        w > 0,
    ensures
        x >= 0 ==> 0 <= trunc_div(x, w) <= x,
        x <= 0 ==> x <= trunc_div(x, w) <= 0,
        w == 1 ==> trunc_div(x, w) == x,
{
    assert(x >= 0 ==> 0 <= x / w <= x) by (nonlinear_arith)
        requires
            w > 0,
    ;
    assert(x <= 0 ==> 0 <= (-x) / w <= -x) by (nonlinear_arith)
        requires
            w > 0,
    ;
    assert(w == 1 ==> x / w == x && (-x) / w == -x) by (nonlinear_arith);
}

/// A scalar divided by a positive scalar is representable.
pub proof fn lemma_quotient_fits<T: Scalar>(x: T, w: T)
    requires
        w.val() > 0,
    ensures
        T::fits(trunc_div(x.val(), w.val())),
{
    lemma_quotient_by_positive(x.val(), w.val());
    x.lemma_val_fits();
    T::lemma_unit_fits();
    if x.val() >= 0 {
        T::lemma_fits_between(0, trunc_div(x.val(), w.val()), x.val());
    } else {
        T::lemma_fits_between(x.val(), trunc_div(x.val(), w.val()), 0);
    }
}

/// The scalar that stands for half of `theta`, rounded toward zero.
pub open spec fn half_of<T: Scalar>(theta: int) -> T {
    T::of_int(trunc_div(theta, 2))
}

/// The squares of the sine and the cosine of `theta` add up to one, as those
/// of a real angle do.
pub open spec fn unit_pair<T: Scalar + Trig>(theta: T) -> bool {
    theta.sin_spec().val() * theta.sin_spec().val() + theta.cos_spec().val()
        * theta.cos_spec().val() == 1
}

/// Whether the integer `v` can be carried over into the scalar type `N`.
pub open spec fn castable<N: Scalar>(v: int) -> bool {
    i128::MIN <= v <= i128::MAX && N::fits(v)
}

/// The scalar of type `N` that stands for the same integer as `x`, or nothing
/// when `N` cannot represent it.
pub fn try_cast<T: Scalar, N: Scalar>(x: T) -> (r: Option<N>)
    ensures
        r.is_some() <==> castable::<N>(x.val()),
        r matches Some(y) ==> y.val() == x.val(),
{
    match x.to_i128() {
        Some(w) => N::from_i128(w),
        None => None,
    }
}

/// The smaller of two scalars; the first when they are equal.
pub fn min<T: Scalar>(x: T, y: T) -> (r: T)
    ensures
        r == (if x.val() <= y.val() { x } else { y }),
{
    if x.le(y) {
        x
    } else {
        y
    }
}

/// The larger of two scalars; the first when they are equal.
pub fn max<T: Scalar>(x: T, y: T) -> (r: T)
    ensures
        r == (if x.val() >= y.val() { x } else { y }),
{
    if x.ge(y) {
        x
    } else {
        y
    }
}

/// `num_traits::NumCast::from` from `i64` to `i128`: every value of the
/// narrower type is representable in the wider, so the result is always there
/// and equals the argument.
#[verifier::external_body]
fn widen_i64(x: i64) -> (r: Option<i128>)
    ensures
        r == Some(x as i128),
{
    num_traits::NumCast::from(x)
}

/// `num_traits::NumCast::from` from `i128` to `i64`: the value itself when it
/// lies within the range of the target type, nothing otherwise.
#[verifier::external_body]
fn narrow_to_i64(v: i128) -> (r: Option<i64>)
    ensures
        r.is_some() <==> i64::MIN <= v <= i64::MAX,
        r matches Some(x) ==> x == v,
{
    num_traits::NumCast::from(v)
}

/// `num_traits::Zero::zero` at `i64`: the additive identity, `0`.
#[verifier::external_body]
fn zero_i64() -> (r: i64)
    ensures
        r == 0,
{
    num_traits::Zero::zero()
}

/// `num_traits::One::one` at `i64`: the multiplicative identity, `1`.
#[verifier::external_body]
fn one_i64() -> (r: i64)
    ensures
        r == 1,
{
    num_traits::One::one()
}

/// `num_traits::Signed::abs` at `i64`: the absolute value. The minimum value
/// has no representable absolute value and is excluded.
#[verifier::external_body]
fn abs_i64(x: i64) -> (r: i64)
    requires
        x > i64::MIN,
    ensures
        r == abs_int(x as int),
{
    num_traits::Signed::abs(&x)
}

/// `num_traits::Signed::is_positive` at `i64`: true exactly for values above zero.
#[verifier::external_body]
fn is_positive_i64(x: i64) -> (b: bool)
    ensures
        b == (x > 0),
{
    num_traits::Signed::is_positive(&x)
}

/// `num_traits::NumCast::from` from `i32` to `i128`: every value of the
/// narrower type is representable in the wider, so the result is always there
/// and equals the argument.
#[verifier::external_body]
fn widen_i32(x: i32) -> (r: Option<i128>)
    ensures
        r == Some(x as i128),
{
    num_traits::NumCast::from(x)
}

/// `num_traits::NumCast::from` from `i128` to `i32`: the value itself when it
/// lies within the range of the target type, nothing otherwise.
#[verifier::external_body]
fn narrow_to_i32(v: i128) -> (r: Option<i32>)
    ensures
        r.is_some() <==> i32::MIN <= v <= i32::MAX,
        r matches Some(x) ==> x == v,
{
    num_traits::NumCast::from(v)
}

/// `num_traits::Zero::zero` at `i32`: the additive identity, `0`.
#[verifier::external_body]
fn zero_i32() -> (r: i32)
    ensures
        r == 0,
{
    num_traits::Zero::zero()
}

/// `num_traits::One::one` at `i32`: the multiplicative identity, `1`.
#[verifier::external_body]
fn one_i32() -> (r: i32)
    ensures
        r == 1,
{
    num_traits::One::one()
}

/// `num_traits::Signed::abs` at `i32`: the absolute value. The minimum value
/// has no representable absolute value and is excluded.
#[verifier::external_body]
fn abs_i32(x: i32) -> (r: i32)
    requires
        x > i32::MIN,
    ensures
        r == abs_int(x as int),
{
    num_traits::Signed::abs(&x)
}

/// `num_traits::Signed::is_positive` at `i32`: true exactly for values above zero.
#[verifier::external_body]
fn is_positive_i32(x: i32) -> (b: bool)
    ensures
        b == (x > 0),
{
    num_traits::Signed::is_positive(&x)
}

impl Scalar for i64 {
    open spec fn val(self) -> int {
        self as int
    }

    open spec fn fits(v: int) -> bool {
        i64::MIN <= v <= i64::MAX
    }

    proof fn lemma_val_fits(self) {
    }

    proof fn lemma_val_injective(self, other: Self) {
    }

    proof fn lemma_fits_between(lo: int, v: int, hi: int) {
    }

    open spec fn of_int(v: int) -> Self {
        v as i64
    }

    proof fn lemma_of_int(v: int) {
    }

    proof fn lemma_unit_fits() {
    }

    fn zero() -> (r: Self) {
        zero_i64()
    }

    fn one() -> (r: Self) {
        one_i64()
    }

    fn add(self, rhs: Self) -> (r: Self) {
        self + rhs
    }

    fn sub(self, rhs: Self) -> (r: Self) {
        self - rhs
    }

    fn mul(self, rhs: Self) -> (r: Self) {
        self * rhs
    }

    fn div(self, rhs: Self) -> (r: Self) {
        proof {
            assert(0x8000_0000_0000_0000int / (-1int) == -0x8000_0000_0000_0000int)
                by (nonlinear_arith);
        }
        self / rhs
    }

    fn neg(self) -> (r: Self) {
        -self
    }

    fn abs(self) -> (r: Self) {
        abs_i64(self)
    }

    fn is_positive(self) -> (b: bool) {
        is_positive_i64(self)
    }

    fn to_i128(self) -> (r: Option<i128>) {
        widen_i64(self)
    }

    fn from_i128(v: i128) -> (r: Option<Self>) {
        narrow_to_i64(v)
    }

    fn eq(self, rhs: Self) -> (b: bool) {
        self == rhs
    }

    fn ne(self, rhs: Self) -> (b: bool) {
        self != rhs
    }

    fn lt(self, rhs: Self) -> (b: bool) {
        self < rhs
    }

    fn le(self, rhs: Self) -> (b: bool) {
        self <= rhs
    }

    fn gt(self, rhs: Self) -> (b: bool) {
        self > rhs
    }

    fn ge(self, rhs: Self) -> (b: bool) {
        self >= rhs
    }
}

impl Scalar for i32 {
    open spec fn val(self) -> int {
        self as int
    }

    open spec fn fits(v: int) -> bool {
        i32::MIN <= v <= i32::MAX
    }

    proof fn lemma_val_fits(self) {
    }

    proof fn lemma_val_injective(self, other: Self) {
    }

    proof fn lemma_fits_between(lo: int, v: int, hi: int) {
    }

    open spec fn of_int(v: int) -> Self {
        v as i32
    }

    proof fn lemma_of_int(v: int) {
    }

    proof fn lemma_unit_fits() {
    }

    fn zero() -> (r: Self) {
        zero_i32()
    }

    fn one() -> (r: Self) {
        one_i32()
    }

    fn add(self, rhs: Self) -> (r: Self) {
        self + rhs
    }

    fn sub(self, rhs: Self) -> (r: Self) {
        self - rhs
    }

    fn mul(self, rhs: Self) -> (r: Self) {
        self * rhs
    }

    fn div(self, rhs: Self) -> (r: Self) {
        proof {
            assert(0x8000_0000int / (-1int) == -0x8000_0000int) by (nonlinear_arith);
        }
        self / rhs
    }

    fn neg(self) -> (r: Self) {
        -self
    }

    fn abs(self) -> (r: Self) {
        abs_i32(self)
    }

    fn is_positive(self) -> (b: bool) {
        is_positive_i32(self)
    }

    fn to_i128(self) -> (r: Option<i128>) {
        widen_i32(self)
    }

    fn from_i128(v: i128) -> (r: Option<Self>) {
        narrow_to_i32(v)
    }

    fn eq(self, rhs: Self) -> (b: bool) {
        self == rhs
    }

    fn ne(self, rhs: Self) -> (b: bool) {
        self != rhs
    }

    fn lt(self, rhs: Self) -> (b: bool) {
        self < rhs
    }

    fn le(self, rhs: Self) -> (b: bool) {
        self <= rhs
    }

    fn gt(self, rhs: Self) -> (b: bool) {
        self > rhs
    }

    fn ge(self, rhs: Self) -> (b: bool) {
        self >= rhs
    }
}

impl Zero for i64 {
    open spec fn is_zero(&self) -> bool {
        *self == 0
    }

    fn zero() -> (r: Self) {
        zero_i64()
    }
}

impl One for i64 {
    open spec fn is_one(&self) -> bool {
        *self == 1
    }

    fn one() -> (r: Self) {
        one_i64()
    }
}

impl Zero for i32 {
    open spec fn is_zero(&self) -> bool {
        *self == 0
    }

    fn zero() -> (r: Self) {
        zero_i32()
    }
}

impl One for i32 {
    open spec fn is_one(&self) -> bool {
        *self == 1
    }

    fn one() -> (r: Self) {
        one_i32()
    }
}

impl Round for i64 {
    open spec fn round_spec(self) -> Self {
        self
    }

    fn round(self) -> (r: Self) {
        self
    }
}

impl Ceil for i64 {
    open spec fn ceil_spec(self) -> Self {
        self
    }

    fn ceil(self) -> (r: Self) {
        self
    }
}

impl Floor for i64 {
    open spec fn floor_spec(self) -> Self {
        self
    }

    fn floor(self) -> (r: Self) {
        self
    }
}

impl Round for i32 {
    open spec fn round_spec(self) -> Self {
        self
    }

    fn round(self) -> (r: Self) {
        self
    }
}

impl Ceil for i32 {
    open spec fn ceil_spec(self) -> Self {
        self
    }

    fn ceil(self) -> (r: Self) {
        self
    }
}

impl Floor for i32 {
    open spec fn floor_spec(self) -> Self {
        self
    }

    fn floor(self) -> (r: Self) {
        self
    }
}

} // verus!

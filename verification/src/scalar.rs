//! Scalar types.
//!
//! Everything in this crate is generic over the type of a number. A number
//! brings its operators from `core::ops`, its ordering from `PartialOrd` and
//! its small constants from `From<i8>`; that bundle is [`Scalar`]. Functions
//! that have no operator (`sqrt`, `sin`, ...) come from [`Elementary`].
//!
//! Contracts speak of a scalar type in two ways:
//!
//! * An operator may refuse some operands (an integer sum may overflow). The
//!   predicates `add_total`, ..., `neg_total` say of one operator that it
//!   refuses none, [`total`] says so of the four operations.
//! * An operator is a function of its operands only if the type says so. The
//!   predicate [`exact`] collects those promises; what a contract states of
//!   computed values it states for exact types.
//!
//! The methods of [`Elementary`] carry no contract. Where a result of one of
//! them enters a value, the contract relates argument and result through the
//! predicates `sqrt_of`, `sin_of`, ... and says no more of it.
//!
//! The signed integers of the standard library are exact and not total.
//! Its floating-point types are scalars too, but ones of which Verus knows
//! neither: of a computation in them the contracts state the shape of the
//! result and leave its entries open. A type of one's own is what it
//! proves itself to be.
use vstd::prelude::*;
use vstd::std_specs::cmp::PartialOrdSpec;
use vstd::std_specs::convert::FromSpec;
use vstd::std_specs::ops::{AddSpec, DivSpec, MulSpec, NegSpec, SubSpec};
use core::cmp::Ordering;
use core::ops::{Add, Div, Mul, Neg, Sub};

verus! {

/// A number: copied freely, built from small constants, closed under the
/// four operations and negation, and partially ordered.
pub trait Scalar: Copy + From<i8> + Add<Output = Self> + Sub<Output = Self> + Mul<
    Output = Self,
> + Div<Output = Self> + Neg<Output = Self> + PartialOrd {

}

impl<
    T: Copy + From<i8> + Add<Output = T> + Sub<Output = T> + Mul<Output = T> + Div<
        Output = T,
    > + Neg<Output = T> + PartialOrd,
> Scalar for T {

}

/// The functions of a scalar type that are no operators.
pub trait Elementary: Sized {
    fn sqrt(self) -> Self;

    fn abs(self) -> Self;

    fn powi(self, n: i32) -> Self;

    fn powf(self, n: Self) -> Self;

    fn sin(self) -> Self;

    fn cos(self) -> Self;

    fn tan(self) -> Self;

    fn asin(self) -> Self;

    fn acos(self) -> Self;

    fn atan(self) -> Self;

    fn exp(self) -> Self;

    fn ln(self) -> Self;

    fn log10(self) -> Self;

    /// The natural logarithm of ten.
    fn ln_10() -> Self;
}

/// The scalar that stands for the small constant `n`.
pub open spec fn lit<T: Scalar>(n: i8) -> T {
    T::from_spec(n)
}

pub open spec fn zero<T: Scalar>() -> T {
    lit::<T>(0)
}

pub open spec fn one<T: Scalar>() -> T {
    lit::<T>(1)
}

pub open spec fn two<T: Scalar>() -> T {
    lit::<T>(2)
}

pub open spec fn minus_one<T: Scalar>() -> T {
    lit::<T>(-1i8)
}

/// One divided by two.
pub open spec fn half<T: Scalar>() -> T {
    one::<T>().div_spec(two::<T>())
}

/// `x >= y` as the type's partial order has it.
pub open spec fn at_least<T: Scalar>(x: T, y: T) -> bool {
    x.partial_cmp_spec(&y) matches Some(Ordering::Greater | Ordering::Equal)
}

/// Addition accepts every pair of operands.
pub open spec fn add_total<T: Add<Output = T>>() -> bool {
    forall|x: T, y: T| #[trigger] x.add_req(y)
}

/// Subtraction accepts every pair of operands.
pub open spec fn sub_total<T: Sub<Output = T>>() -> bool {
    forall|x: T, y: T| #[trigger] x.sub_req(y)
}

/// Multiplication accepts every pair of operands.
pub open spec fn mul_total<T: Mul<Output = T>>() -> bool {
    forall|x: T, y: T| #[trigger] x.mul_req(y)
}

/// Division accepts every pair of operands.
pub open spec fn div_total<T: Div<Output = T>>() -> bool {
    forall|x: T, y: T| #[trigger] x.div_req(y)
}

/// Negation accepts every operand.
pub open spec fn neg_total<T: Neg<Output = T>>() -> bool {
    forall|x: T| #[trigger] x.neg_req()
}

/// None of the four operations of `T` refuses an operand.
pub open spec fn total<T: Scalar>() -> bool {
    &&& add_total::<T>()
    &&& sub_total::<T>()
    &&& mul_total::<T>()
    &&& div_total::<T>()
}

/// Zero, sums and products of `T` are functions of their operands: what a
/// sum of products is, is then settled.
pub open spec fn exact_sums<T: Scalar>() -> bool {
    &&& T::obeys_from_spec()
    &&& T::obeys_add_spec()
    &&& T::obeys_mul_spec()
}

/// The four operations, negation and the constants of `T` are functions of
/// their operands.
pub open spec fn exact_arith<T: Scalar>() -> bool {
    &&& T::obeys_from_spec()
    &&& T::obeys_add_spec()
    &&& T::obeys_sub_spec()
    &&& T::obeys_mul_spec()
    &&& T::obeys_div_spec()
    &&& T::obeys_neg_spec()
}

/// Every operator and comparison of `T` is a function of its operands.
pub open spec fn exact<T: Scalar>() -> bool {
    &&& exact_arith::<T>()
    &&& T::obeys_partial_cmp_spec()
}

/// `r` is a square root of `x` as `T` computes it.
pub open spec fn sqrt_of<T: Elementary>(x: T, r: T) -> bool {
    call_ensures(T::sqrt, (x,), r)
}

/// `r` is the absolute value of `x` as `T` computes it.
pub open spec fn abs_of<T: Elementary>(x: T, r: T) -> bool {
    call_ensures(T::abs, (x,), r)
}

/// `r` is `x` to the power `n` as `T` computes it.
pub open spec fn powi_of<T: Elementary>(x: T, n: i32, r: T) -> bool {
    call_ensures(T::powi, (x, n), r)
}

/// `r` is `x` to the power `n` as `T` computes it.
pub open spec fn powf_of<T: Elementary>(x: T, n: T, r: T) -> bool {
    call_ensures(T::powf, (x, n), r)
}

/// `r` is the sine of `x` as `T` computes it.
pub open spec fn sin_of<T: Elementary>(x: T, r: T) -> bool {
    call_ensures(T::sin, (x,), r)
}

/// `r` is the cosine of `x` as `T` computes it.
pub open spec fn cos_of<T: Elementary>(x: T, r: T) -> bool {
    call_ensures(T::cos, (x,), r)
}

/// `r` is the tangent of `x` as `T` computes it.
pub open spec fn tan_of<T: Elementary>(x: T, r: T) -> bool {
    call_ensures(T::tan, (x,), r)
}

/// `r` is the arcsine of `x` as `T` computes it.
pub open spec fn asin_of<T: Elementary>(x: T, r: T) -> bool {
    call_ensures(T::asin, (x,), r)
}

/// `r` is the arccosine of `x` as `T` computes it.
pub open spec fn acos_of<T: Elementary>(x: T, r: T) -> bool {
    call_ensures(T::acos, (x,), r)
}

/// `r` is the arctangent of `x` as `T` computes it.
pub open spec fn atan_of<T: Elementary>(x: T, r: T) -> bool {
    call_ensures(T::atan, (x,), r)
}

/// `r` is `e` to the power `x` as `T` computes it.
pub open spec fn exp_of<T: Elementary>(x: T, r: T) -> bool {
    call_ensures(T::exp, (x,), r)
}

/// `r` is the natural logarithm of `x` as `T` computes it.
pub open spec fn ln_of<T: Elementary>(x: T, r: T) -> bool {
    call_ensures(T::ln, (x,), r)
}

/// `r` is the logarithm to base ten of `x` as `T` computes it.
pub open spec fn log10_of<T: Elementary>(x: T, r: T) -> bool {
    call_ensures(T::log10, (x,), r)
}

/// `r` is the natural logarithm of ten as `T` has it.
pub open spec fn ln_10_of<T: Elementary>(r: T) -> bool {
    call_ensures(T::ln_10, (), r)
}

/// Whether `x >= y`.
pub fn is_at_least<T: Scalar>(x: T, y: T) -> (r: bool)
    ensures
        T::obeys_partial_cmp_spec() ==> r == at_least(x, y),
{
    x >= y
}

/// The constant `n` as a scalar.
pub fn constant<T: Scalar>(n: i8) -> (r: T)
    ensures
        T::obeys_from_spec() ==> r == lit::<T>(n),
{
    T::from(n)
}

} // verus!

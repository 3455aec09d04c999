//! Dual numbers for automatic differentiation: a value and its derivative,
//! carried together through arithmetic and the elementary functions.
//!
//! The arithmetic of dual numbers is stated exactly over the arithmetic of
//! the scalar type. An elementary function applies the chain rule to what
//! the scalar type's own functions return; its contract names those results
//! and says what is made of them.
use vstd::prelude::*;
use vstd::std_specs::cmp::{PartialEqSpec, PartialOrdSpec};
use vstd::std_specs::convert::FromSpec;
use vstd::std_specs::ops::{AddSpec, DivSpec, MulSpec, NegSpec, SubSpec};
use core::cmp::Ordering;
use core::ops::{Add, Div, Mul, Neg, Sub};
use crate::scalar::{
    acos_of, add_total, asin_of, atan_of, constant, cos_of, div_total, exact_arith, exp_of, half,
    ln_10_of, ln_of, log10_of, minus_one, mul_total, neg_total, one, powf_of, powi_of, sin_of,
    sqrt_of, sub_total, tan_of, total, Elementary, Scalar,
};

verus! {

/// A number `f` together with its derivative `df`.
#[derive(Clone, Copy, Debug)]
pub struct DiffNum<T> {
    pub f: T,
    pub df: T,
}

/// The operators accept each step of the product `a * b`: the three
/// products of parts, and the sum of two of them, which is a sum of known
/// numbers only where multiplication is exact.
pub open spec fn product_defined<T: Mul<Output = T> + Add<Output = T> + Copy>(
    a: DiffNum<T>,
    b: DiffNum<T>,
) -> bool {
    &&& a.f.mul_req(b.f)
    &&& a.f.mul_req(b.df)
    &&& a.df.mul_req(b.f)
    &&& {
        ||| add_total::<T>()
        ||| T::obeys_mul_spec() && a.f.mul_spec(b.df).add_req(a.df.mul_spec(b.f))
    }
}

/// The operators accept each step of the quotient `a / b`: the quotient of
/// the values, the three products of parts, and the difference and the
/// quotient of the derivative, which are of known numbers only where
/// multiplication and subtraction are exact.
pub open spec fn quotient_defined<T: Div<Output = T> + Sub<Output = T> + Mul<Output = T> + Copy>(
    a: DiffNum<T>,
    b: DiffNum<T>,
) -> bool {
    &&& a.f.div_req(b.f)
    &&& a.df.mul_req(b.f)
    &&& a.f.mul_req(b.df)
    &&& b.f.mul_req(b.f)
    &&& {
        ||| sub_total::<T>() && div_total::<T>()
        ||| {
            &&& T::obeys_mul_spec()
            &&& T::obeys_sub_spec()
            &&& a.df.mul_spec(b.f).sub_req(a.f.mul_spec(b.df))
            &&& a.df.mul_spec(b.f).sub_spec(a.f.mul_spec(b.df)).div_req(b.f.mul_spec(b.f))
        }
    }
}

impl<T: Default> Default for DiffNum<T> {
    /// The scalar type's default for both the value and the derivative.
    fn default() -> (r: Self)
        ensures
            call_ensures(T::default, (), r.f),
            call_ensures(T::default, (), r.df),
    {
        DiffNum { f: T::default(), df: T::default() }
    }
}

impl<T: From<i8>> vstd::std_specs::convert::FromSpecImpl<T> for DiffNum<T> {
    open spec fn obeys_from_spec() -> bool {
        T::obeys_from_spec()
    }

    open spec fn from_spec(v: T) -> Self {
        DiffNum { f: v, df: T::from_spec(0i8) }
    }
}

/// A constant: the value with derivative zero.
impl<T: From<i8>> From<T> for DiffNum<T> {
    fn from(value: T) -> (r: Self) {
        DiffNum { f: value, df: T::from(0i8) }
    }
}

impl<T: Add<Output = T> + Copy> vstd::std_specs::ops::AddSpecImpl for DiffNum<T> {
    open spec fn obeys_add_spec() -> bool {
        T::obeys_add_spec()
    }

    open spec fn add_req(self, rhs: Self) -> bool {
        self.f.add_req(rhs.f) && self.df.add_req(rhs.df)
    }

    open spec fn add_spec(self, rhs: Self) -> Self {
        DiffNum { f: self.f.add_spec(rhs.f), df: self.df.add_spec(rhs.df) }
    }
}

/// `(f + g)' = f' + g'`.
impl<T: Add<Output = T> + Copy> Add for DiffNum<T> {
    type Output = Self;

    fn add(self, other: Self) -> Self {
        DiffNum { f: self.f + other.f, df: self.df + other.df }
    }
}

impl<T: Sub<Output = T> + Copy> vstd::std_specs::ops::SubSpecImpl for DiffNum<T> {
    open spec fn obeys_sub_spec() -> bool {
        T::obeys_sub_spec()
    }

    open spec fn sub_req(self, rhs: Self) -> bool {
        self.f.sub_req(rhs.f) && self.df.sub_req(rhs.df)
    }

    open spec fn sub_spec(self, rhs: Self) -> Self {
        DiffNum { f: self.f.sub_spec(rhs.f), df: self.df.sub_spec(rhs.df) }
    }
}

/// `(f - g)' = f' - g'`.
impl<T: Sub<Output = T> + Copy> Sub for DiffNum<T> {
    type Output = Self;

    fn sub(self, other: Self) -> Self {
        DiffNum { f: self.f - other.f, df: self.df - other.df }
    }
}

impl<T: Mul<Output = T> + Add<Output = T> + Copy> vstd::std_specs::ops::MulSpecImpl for DiffNum<T> {
    open spec fn obeys_mul_spec() -> bool {
        T::obeys_mul_spec() && T::obeys_add_spec()
    }

    open spec fn mul_req(self, rhs: Self) -> bool {
        product_defined(self, rhs)
    }

    open spec fn mul_spec(self, rhs: Self) -> Self {
        DiffNum {
            f: self.f.mul_spec(rhs.f),
            df: self.f.mul_spec(rhs.df).add_spec(self.df.mul_spec(rhs.f)),
        }
    }
}

/// `(f g)' = f g' + f' g`.
impl<T: Mul<Output = T> + Add<Output = T> + Copy> Mul for DiffNum<T> {
    type Output = Self;

    fn mul(self, other: Self) -> Self {
        DiffNum { f: self.f * other.f, df: self.f * other.df + self.df * other.f }
    }
}

impl<T: Div<Output = T> + Sub<Output = T> + Mul<Output = T> + Copy> vstd::std_specs::ops::DivSpecImpl for DiffNum<T> {
    open spec fn obeys_div_spec() -> bool {
        T::obeys_div_spec() && T::obeys_sub_spec() && T::obeys_mul_spec()
    }

    open spec fn div_req(self, rhs: Self) -> bool {
        quotient_defined(self, rhs)
    }

    open spec fn div_spec(self, rhs: Self) -> Self {
        DiffNum {
            f: self.f.div_spec(rhs.f),
            df: self.df.mul_spec(rhs.f).sub_spec(self.f.mul_spec(rhs.df)).div_spec(
                rhs.f.mul_spec(rhs.f),
            ),
        }
    }
}

/// `(f / g)' = (f' g - f g') / (g g)`.
impl<T: Div<Output = T> + Sub<Output = T> + Mul<Output = T> + Copy> Div for DiffNum<T> {
    type Output = Self;

    fn div(self, other: Self) -> Self {
        DiffNum {
            f: self.f / other.f,
            df: (self.df * other.f - self.f * other.df) / (other.f * other.f),
        }
    }
}

impl<T: Neg<Output = T> + Copy> vstd::std_specs::ops::NegSpecImpl for DiffNum<T> {
    open spec fn obeys_neg_spec() -> bool {
        T::obeys_neg_spec()
    }

    open spec fn neg_req(self) -> bool {
        self.f.neg_req() && self.df.neg_req()
    }

    open spec fn neg_spec(self) -> Self {
        DiffNum { f: self.f.neg_spec(), df: self.df.neg_spec() }
    }
}

/// `(-f)' = -f'`.
impl<T: Neg<Output = T> + Copy> Neg for DiffNum<T> {
    type Output = Self;

    fn neg(self) -> Self {
        DiffNum { f: self.f.neg(), df: self.df.neg() }
    }
}

// A scalar on the right.

impl<T: Add<Output = T> + Copy> vstd::std_specs::ops::AddSpecImpl<T> for DiffNum<T> {
    open spec fn obeys_add_spec() -> bool {
        T::obeys_add_spec()
    }

    open spec fn add_req(self, rhs: T) -> bool {
        self.f.add_req(rhs)
    }

    open spec fn add_spec(self, rhs: T) -> Self {
        DiffNum { f: self.f.add_spec(rhs), df: self.df }
    }
}

/// `(f + c)' = f'`.
impl<T: Add<Output = T> + Copy> Add<T> for DiffNum<T> {
    type Output = Self;

    fn add(self, other: T) -> Self {
        DiffNum { f: self.f + other, df: self.df }
    }
}

impl<T: Sub<Output = T> + Copy> vstd::std_specs::ops::SubSpecImpl<T> for DiffNum<T> {
    open spec fn obeys_sub_spec() -> bool {
        T::obeys_sub_spec()
    }

    open spec fn sub_req(self, rhs: T) -> bool {
        self.f.sub_req(rhs)
    }

    open spec fn sub_spec(self, rhs: T) -> Self {
        DiffNum { f: self.f.sub_spec(rhs), df: self.df }
    }
}

/// `(f - c)' = f'`.
impl<T: Sub<Output = T> + Copy> Sub<T> for DiffNum<T> {
    type Output = Self;

    fn sub(self, other: T) -> Self {
        DiffNum { f: self.f - other, df: self.df }
    }
}

impl<T: Mul<Output = T> + Copy> vstd::std_specs::ops::MulSpecImpl<T> for DiffNum<T> {
    open spec fn obeys_mul_spec() -> bool {
        T::obeys_mul_spec()
    }

    open spec fn mul_req(self, rhs: T) -> bool {
        self.f.mul_req(rhs) && self.df.mul_req(rhs)
    }

    open spec fn mul_spec(self, rhs: T) -> Self {
        DiffNum { f: self.f.mul_spec(rhs), df: self.df.mul_spec(rhs) }
    }
}

/// `(f c)' = f' c`.
impl<T: Mul<Output = T> + Copy> Mul<T> for DiffNum<T> {
    type Output = Self;

    fn mul(self, other: T) -> Self {
        DiffNum { f: self.f * other, df: self.df * other }
    }
}

impl<T: Div<Output = T> + Copy> vstd::std_specs::ops::DivSpecImpl<T> for DiffNum<T> {
    open spec fn obeys_div_spec() -> bool {
        T::obeys_div_spec()
    }

    open spec fn div_req(self, rhs: T) -> bool {
        self.f.div_req(rhs) && self.df.div_req(rhs)
    }

    open spec fn div_spec(self, rhs: T) -> Self {
        DiffNum { f: self.f.div_spec(rhs), df: self.df.div_spec(rhs) }
    }
}

/// `(f / c)' = f' / c`.
impl<T: Div<Output = T> + Copy> Div<T> for DiffNum<T> {
    type Output = Self;

    fn div(self, other: T) -> Self {
        DiffNum { f: self.f / other, df: self.df / other }
    }
}

// A scalar on the left, under names: an operator whose left operand is the
// scalar type itself is that type's to define.

impl<T: Scalar> DiffNum<T> {
    /// `lhs + rhs`, with `(c + g)' = g'`.
    pub fn scalar_add(lhs: T, rhs: Self) -> (r: Self)
        requires
            lhs.add_req(rhs.f),
        ensures
            T::obeys_add_spec() ==> r == (DiffNum { f: lhs.add_spec(rhs.f), df: rhs.df }),
    {
        DiffNum { f: lhs + rhs.f, df: rhs.df }
    }

    /// `lhs - rhs`, with `(c - g)' = -g'`.
    pub fn scalar_sub(lhs: T, rhs: Self) -> (r: Self)
        requires
            lhs.sub_req(rhs.f),
            rhs.df.neg_req(),
        ensures
            T::obeys_sub_spec() && T::obeys_neg_spec() ==> r == (DiffNum {
                f: lhs.sub_spec(rhs.f),
                df: rhs.df.neg_spec(),
            }),
    {
        DiffNum { f: lhs - rhs.f, df: rhs.df.neg() }
    }

    /// `lhs * rhs`, with `(c g)' = c g'`.
    pub fn scalar_mul(lhs: T, rhs: Self) -> (r: Self)
        requires
            lhs.mul_req(rhs.f),
            lhs.mul_req(rhs.df),
        ensures
            T::obeys_mul_spec() ==> r == (DiffNum {
                f: lhs.mul_spec(rhs.f),
                df: lhs.mul_spec(rhs.df),
            }),
    {
        DiffNum { f: lhs * rhs.f, df: lhs * rhs.df }
    }

    /// `lhs / rhs`, with `(c / g)' = (-c g') / (g g)`.
    pub fn scalar_div(lhs: T, rhs: Self) -> (r: Self)
        requires
            lhs.div_req(rhs.f),
            lhs.neg_req(),
            rhs.f.mul_req(rhs.f),
            mul_total::<T>() && div_total::<T>() || {
                &&& T::obeys_neg_spec()
                &&& T::obeys_mul_spec()
                &&& lhs.neg_spec().mul_req(rhs.df)
                &&& lhs.neg_spec().mul_spec(rhs.df).div_req(rhs.f.mul_spec(rhs.f))
            },
        ensures
            T::obeys_div_spec() && T::obeys_mul_spec() && T::obeys_neg_spec() ==> r == (DiffNum {
                f: lhs.div_spec(rhs.f),
                df: lhs.neg_spec().mul_spec(rhs.df).div_spec(rhs.f.mul_spec(rhs.f)),
            }),
    {
        DiffNum { f: lhs / rhs.f, df: (lhs.neg() * rhs.df) / (rhs.f * rhs.f) }
    }
}

// Arithmetic in place.

impl<T: Add<Output = T> + Copy> DiffNum<T> {
    /// `self` becomes `self + other`.
    pub fn add_assign(&mut self, other: Self)
        requires
            old(self).add_req(other),
        ensures
            T::obeys_add_spec() ==> *final(self) == old(self).add_spec(other),
    {
        self.f = self.f + other.f;
        self.df = self.df + other.df;
    }
}

impl<T: Sub<Output = T> + Copy> DiffNum<T> {
    /// `self` becomes `self - other`.
    pub fn sub_assign(&mut self, other: Self)
        requires
            old(self).sub_req(other),
        ensures
            T::obeys_sub_spec() ==> *final(self) == old(self).sub_spec(other),
    {
        self.f = self.f - other.f;
        self.df = self.df - other.df;
    }
}

impl<T: Mul<Output = T> + Add<Output = T> + Copy> DiffNum<T> {
    /// `self` becomes `self * other`.
    pub fn mul_assign(&mut self, other: Self)
        requires
            old(self).mul_req(other),
        ensures
            T::obeys_mul_spec() && T::obeys_add_spec() ==> *final(self) == old(self).mul_spec(
                other,
            ),
    {
        let new_df: T = self.f * other.df + self.df * other.f;
        self.f = self.f * other.f;
        self.df = new_df;
    }
}

impl<T: Div<Output = T> + Sub<Output = T> + Mul<Output = T> + Copy> DiffNum<T> {
    /// `self` becomes `self / other`.
    pub fn div_assign(&mut self, other: Self)
        requires
            old(self).div_req(other),
        ensures
            T::obeys_div_spec() && T::obeys_sub_spec() && T::obeys_mul_spec() ==> *final(self)
                == old(self).div_spec(other),
    {
        let new_df: T = (self.df * other.f - self.f * other.df) / (other.f * other.f);
        self.f = self.f / other.f;
        self.df = new_df;
    }
}

// Comparison. Two dual numbers are equal when value and derivative are;
// they are ordered by their values alone.

impl<T: PartialEq> PartialEq for DiffNum<T> {
    fn eq(&self, other: &Self) -> (r: bool) {
        self.f == other.f && self.df == other.df
    }
}

impl<T: PartialEq> vstd::std_specs::cmp::PartialEqSpecImpl for DiffNum<T> {
    open spec fn obeys_eq_spec() -> bool {
        T::obeys_eq_spec()
    }

    open spec fn eq_spec(&self, other: &Self) -> bool {
        self.f.eq_spec(&other.f) && self.df.eq_spec(&other.df)
    }
}

impl<T: Eq> Eq for DiffNum<T> {

}

impl<T: PartialOrd> PartialOrd for DiffNum<T> {
    fn partial_cmp(&self, other: &Self) -> (r: Option<Ordering>) {
        self.f.partial_cmp(&other.f)
    }
}

impl<T: PartialOrd> vstd::std_specs::cmp::PartialOrdSpecImpl for DiffNum<T> {
    open spec fn obeys_partial_cmp_spec() -> bool {
        T::obeys_partial_cmp_spec()
    }

    open spec fn partial_cmp_spec(&self, other: &Self) -> Option<Ordering> {
        self.f.partial_cmp_spec(&other.f)
    }
}

// The elementary functions, each with its derivative by the chain rule.

impl<T: Scalar + Elementary + From<i32>> DiffNum<T> {
    /// `self` to the power `n`, with `(f^n)' = n f^(n-1) f'`.
    pub fn powi(self, n: i32) -> (r: Self)
        requires
            mul_total::<T>(),
            n > i32::MIN,
        ensures
            powi_of(self.f, n, r.f),
            T::obeys_mul_spec() && <T as FromSpec<i32>>::obeys_from_spec() ==> exists|p: T|
                #[trigger] powi_of(self.f, (n - 1) as i32, p) && r.df == <T as FromSpec<
                    i32,
                >>::from_spec(n).mul_spec(p).mul_spec(self.df),
    {
        let p: T = self.f.powi(n - 1);
        let r = DiffNum { f: self.f.powi(n), df: <T as From<i32>>::from(n) * p * self.df };
        assert(powi_of(self.f, (n - 1) as i32, p));
        r
    }
}

impl<T: Scalar + Elementary> DiffNum<T> {
    /// `self` to the power `n`, with `(f^n)' = n f^(n-1) f'`.
    pub fn powf(self, n: T) -> (r: Self)
        requires
            sub_total::<T>(),
            mul_total::<T>(),
        ensures
            powf_of(self.f, n, r.f),
            exact_arith::<T>() ==> exists|p: T| #[trigger]
                powf_of(self.f, n.sub_spec(one::<T>()), p) && r.df == n.mul_spec(p).mul_spec(
                    self.df,
                ),
    {
        let p: T = self.f.powf(n - constant::<T>(1i8));
        let r = DiffNum { f: self.f.powf(n), df: n * p * self.df };
        assert(exact_arith::<T>() ==> powf_of(self.f, n.sub_spec(one::<T>()), p));
        r
    }

    /// The sine, with `(sin f)' = cos(f) f'`.
    pub fn sin(self) -> (r: Self)
        requires
            mul_total::<T>(),
        ensures
            sin_of(self.f, r.f),
            T::obeys_mul_spec() ==> exists|c: T| #[trigger]
                cos_of(self.f, c) && r.df == c.mul_spec(self.df),
    {
        let c: T = self.f.cos();
        let r = DiffNum { f: self.f.sin(), df: c * self.df };
        assert(cos_of(self.f, c));
        r
    }

    /// The cosine, with `(cos f)' = -sin(f) f'`.
    pub fn cos(self) -> (r: Self)
        requires
            mul_total::<T>(),
            neg_total::<T>(),
        ensures
            cos_of(self.f, r.f),
            T::obeys_mul_spec() && T::obeys_neg_spec() ==> exists|s: T| #[trigger]
                sin_of(self.f, s) && r.df == s.neg_spec().mul_spec(self.df),
    {
        let s: T = self.f.sin();
        let r = DiffNum { f: self.f.cos(), df: s.neg() * self.df };
        assert(sin_of(self.f, s));
        r
    }

    /// The tangent, with `(tan f)' = (1 / cos(f)^2) f'`.
    pub fn tan(self) -> (r: Self)
        requires
            mul_total::<T>(),
            div_total::<T>(),
        ensures
            tan_of(self.f, r.f),
            exact_arith::<T>() ==> exists|c: T, p: T|
                cos_of(self.f, c) && #[trigger] powi_of(c, 2, p) && r.df == one::<T>().div_spec(
                    p,
                ).mul_spec(self.df),
    {
        let c: T = self.f.cos();
        let p: T = c.powi(2);
        let r = DiffNum { f: self.f.tan(), df: (constant::<T>(1i8) / p) * self.df };
        assert(cos_of(self.f, c) && powi_of(c, 2, p));
        r
    }

    /// The arcsine, with `(asin f)' = (1 / sqrt(1 - f^2)) f'`.
    pub fn asin(self) -> (r: Self)
        requires
            total::<T>(),
        ensures
            asin_of(self.f, r.f),
            exact_arith::<T>() ==> exists|p: T, s: T|
                powi_of(self.f, 2, p) && #[trigger] sqrt_of(one::<T>().sub_spec(p), s) && r.df
                    == one::<T>().div_spec(s).mul_spec(self.df),
    {
        let p: T = self.f.powi(2);
        let s: T = (constant::<T>(1i8) - p).sqrt();
        let r = DiffNum { f: self.f.asin(), df: (constant::<T>(1i8) / s) * self.df };
        assert(exact_arith::<T>() ==> powi_of(self.f, 2, p) && sqrt_of(
            one::<T>().sub_spec(p),
            s,
        ));
        r
    }

    /// The arccosine, with `(acos f)' = (-1 / sqrt(1 - f^2)) f'`.
    pub fn acos(self) -> (r: Self)
        requires
            total::<T>(),
        ensures
            acos_of(self.f, r.f),
            exact_arith::<T>() ==> exists|p: T, s: T|
                powi_of(self.f, 2, p) && #[trigger] sqrt_of(one::<T>().sub_spec(p), s) && r.df
                    == minus_one::<T>().div_spec(s).mul_spec(self.df),
    {
        let p: T = self.f.powi(2);
        let s: T = (constant::<T>(1i8) - p).sqrt();
        let r = DiffNum { f: self.f.acos(), df: (constant::<T>(-1i8) / s) * self.df };
        assert(exact_arith::<T>() ==> powi_of(self.f, 2, p) && sqrt_of(
            one::<T>().sub_spec(p),
            s,
        ));
        r
    }

    /// The arctangent, with `(atan f)' = (1 / (1 + f^2)) f'`.
    pub fn atan(self) -> (r: Self)
        requires
            total::<T>(),
        ensures
            atan_of(self.f, r.f),
            exact_arith::<T>() ==> exists|p: T| #[trigger]
                powi_of(self.f, 2, p) && r.df == one::<T>().div_spec(
                    one::<T>().add_spec(p),
                ).mul_spec(self.df),
    {
        let p: T = self.f.powi(2);
        let r = DiffNum {
            f: self.f.atan(),
            df: (constant::<T>(1i8) / (constant::<T>(1i8) + p)) * self.df,
        };
        assert(powi_of(self.f, 2, p));
        r
    }

    /// The exponential, with `(exp f)' = exp(f) f'`.
    pub fn exp(self) -> (r: Self)
        requires
            mul_total::<T>(),
        ensures
            exp_of(self.f, r.f),
            T::obeys_mul_spec() ==> r.df == r.f.mul_spec(self.df),
    {
        let e: T = self.f.exp();
        DiffNum { f: e, df: e * self.df }
    }

    /// The natural logarithm, with `(ln f)' = (1 / f) f'`.
    pub fn ln(self) -> (r: Self)
        requires
            mul_total::<T>(),
            div_total::<T>(),
        ensures
            ln_of(self.f, r.f),
            exact_arith::<T>() ==> r.df == one::<T>().div_spec(self.f).mul_spec(self.df),
    {
        DiffNum { f: self.f.ln(), df: (constant::<T>(1i8) / self.f) * self.df }
    }

    /// The logarithm to base ten, with `(log10 f)' = (1 / (f ln 10)) f'`.
    pub fn log10(self) -> (r: Self)
        requires
            mul_total::<T>(),
            div_total::<T>(),
        ensures
            log10_of(self.f, r.f),
            exact_arith::<T>() ==> exists|k: T| #[trigger]
                ln_10_of(k) && r.df == one::<T>().div_spec(self.f.mul_spec(k)).mul_spec(self.df),
    {
        let k: T = T::ln_10();
        let r = DiffNum { f: self.f.log10(), df: (constant::<T>(1i8) / (self.f * k)) * self.df };
        assert(ln_10_of(k));
        r
    }

    /// The square root, with `(sqrt f)' = ((1/2) / sqrt(f)) f'`.
    pub fn sqrt(self) -> (r: Self)
        requires
            mul_total::<T>(),
            div_total::<T>(),
        ensures
            sqrt_of(self.f, r.f),
            exact_arith::<T>() ==> r.df == half::<T>().div_spec(r.f).mul_spec(self.df),
    {
        let s: T = self.f.sqrt();
        let half: T = constant::<T>(1i8) / constant::<T>(2i8);
        DiffNum { f: s, df: (half / s) * self.df }
    }
}

} // verus!

//! Dense matrices over a generic scalar, QR factorisation by Householder
//! reflections, a linear solver built on it, dual numbers for automatic
//! differentiation and Gauss-Legendre quadrature rules.
//!
//! * [`scalar`]: what a number has to offer, and how contracts speak of it.
//! * [`lin_alg::grid`]: matrices as mathematical values, and the laws of
//!   their operations.
//! * [`lin_alg::mat`]: the matrix type and its arithmetic.
//! * [`lin_alg`]: the factorisation and the solver.
//! * [`auto_diff`]: dual numbers.
//! * this file: the quadrature rules.
//!
//! What a caller must see to is in `requires`; with that seen to, no index
//! leaves its matrix and no size overflows. A function computes with the
//! scalar type's own operators, in a fixed order, and its `ensures` says
//! which operations those are; what the operators return is the scalar
//! type's affair (see [`scalar`]).
use vstd::prelude::*;
use vstd::std_specs::ops::{AddSpec, DivSpec, MulSpec, NegSpec, SubSpec};
use core::ops::Neg;
use crate::scalar::{
    constant, exact_arith, half, lit, minus_one, neg_total, one, sqrt_of, total, two, zero,
    Elementary, Scalar,
};

pub mod auto_diff;
pub mod lin_alg;
pub mod scalar;

verus! {

/// The rule of order one: the midpoint, with weight two.
pub open spec fn rule_1<T: Scalar>() -> Seq<(T, T)> {
    seq![(zero::<T>(), two::<T>())]
}

/// The rule of order two, given the square root of three.
pub open spec fn rule_2<T: Scalar>(root: T) -> Seq<(T, T)> {
    seq![
        (minus_one::<T>().div_spec(root), one::<T>()),
        (one::<T>().div_spec(root), one::<T>()),
    ]
}

/// The rule of order three, given the square root of three fifths.
pub open spec fn rule_3<T: Scalar>(root: T) -> Seq<(T, T)> {
    seq![
        (root.neg_spec(), lit::<T>(5).div_spec(lit::<T>(9))),
        (zero::<T>(), lit::<T>(8).div_spec(lit::<T>(9))),
        (root, lit::<T>(5).div_spec(lit::<T>(9))),
    ]
}

/// The number under the square root of an outer point of the rule of order
/// four, given the square root of six fifths: `(3 + 2 * root) / 7`.
pub open spec fn outer_square<T: Scalar>(root: T) -> T {
    lit::<T>(3).add_spec(two::<T>().mul_spec(root)).div_spec(lit::<T>(7))
}

/// The number under the square root of an inner point of the rule of order
/// four, given the square root of six fifths: `(3 - 2 * root) / 7`.
pub open spec fn inner_square<T: Scalar>(root: T) -> T {
    lit::<T>(3).sub_spec(two::<T>().mul_spec(root)).div_spec(lit::<T>(7))
}

/// The rule of order four, given its outer and its inner point and the
/// square root of thirty.
pub open spec fn rule_4<T: Scalar>(outer: T, inner: T, root30: T) -> Seq<(T, T)> {
    let light = lit::<T>(18).sub_spec(root30).div_spec(lit::<T>(36));
    let heavy = lit::<T>(18).add_spec(root30).div_spec(lit::<T>(36));
    seq![(outer.neg_spec(), light), (inner.neg_spec(), heavy), (inner, heavy), (outer, light)]
}

/// The four square roots of the rule of order four are roots as `T` takes
/// them: `root` of six fifths, `root30` of thirty, and the two points of
/// the numbers that `root` gives.
pub open spec fn roots_fit<T: Scalar + Elementary>(root: T, root30: T, outer: T, inner: T) -> bool {
    &&& sqrt_of(lit::<T>(6).div_spec(lit::<T>(5)), root)
    &&& sqrt_of(lit::<T>(30), root30)
    &&& sqrt_of(outer_square(root), outer)
    &&& sqrt_of(inner_square(root), inner)
}

/// `rule` is the Gauss-Legendre rule of order `n` on `[-1, 1]`, points with
/// their weights from left to right, for some square roots that `T` takes.
pub open spec fn is_rule<T: Scalar + Elementary>(n: int, rule: Seq<(T, T)>) -> bool {
    if n == 1 {
        rule == rule_1::<T>()
    } else if n == 2 {
        exists|root: T| sqrt_of(lit::<T>(3), root) && rule == #[trigger] rule_2(root)
    } else if n == 3 {
        exists|root: T|
            sqrt_of(lit::<T>(3).div_spec(lit::<T>(5)), root) && rule == #[trigger] rule_3(root)
    } else if n == 4 {
        exists|root: T, root30: T, outer: T, inner: T| #[trigger]
            roots_fit(root, root30, outer, inner) && rule == rule_4(outer, inner, root30)
    } else {
        false
    }
}

/// The rule `rule` for `[-1, 1]` carried over to `[a, b]`: a point `x`
/// becomes `(1/2)(b - a) x + (1/2)(a + b)`, a weight `w` becomes
/// `(1/2)(b - a) w`.
pub open spec fn on_interval<T: Scalar>(rule: Seq<(T, T)>, a: T, b: T) -> Seq<(T, T)> {
    Seq::new(
        rule.len(),
        |i: int|
            (
                half::<T>().mul_spec(b.sub_spec(a)).mul_spec(rule[i].0).add_spec(
                    half::<T>().mul_spec(a.add_spec(b)),
                ),
                half::<T>().mul_spec(b.sub_spec(a)).mul_spec(rule[i].1),
            ),
    )
}

/// The Gauss-Legendre rule of order `n`, from one to four, on `[-1, 1]`:
/// `n` points, each with its weight.
pub fn glq_quadrature<T: Scalar + Elementary>(n: usize) -> (rule: Vec<(T, T)>)
    requires
        total::<T>(),
        neg_total::<T>(),
        1 <= n <= 4,
    ensures
        rule@.len() == n,
        exact_arith::<T>() ==> is_rule(n as int, rule@),
{
    let mut rule: Vec<(T, T)> = Vec::new();
    if n == 1 {
        rule.push((constant(0i8), constant(2i8)));
        proof {
            if exact_arith::<T>() {
                assert(rule@ =~= rule_1::<T>());
            }
        }
    } else if n == 2 {
        let root: T = constant::<T>(3i8).sqrt();
        rule.push((constant::<T>(-1i8) / root, constant(1i8)));
        rule.push((constant::<T>(1i8) / root, constant(1i8)));
        proof {
            if exact_arith::<T>() {
                assert(rule@ =~= rule_2(root));
            }
        }
    } else if n == 3 {
        let root: T = (constant::<T>(3i8) / constant::<T>(5i8)).sqrt();
        rule.push((root.neg(), constant::<T>(5i8) / constant::<T>(9i8)));
        rule.push((constant(0i8), constant::<T>(8i8) / constant::<T>(9i8)));
        rule.push((root, constant::<T>(5i8) / constant::<T>(9i8)));
        proof {
            if exact_arith::<T>() {
                assert(rule@ =~= rule_3(root));
            }
        }
    } else {
        let root: T = (constant::<T>(6i8) / constant::<T>(5i8)).sqrt();
        let root30: T = constant::<T>(30i8).sqrt();
        let outer: T = ((constant::<T>(3i8) + constant::<T>(2i8) * root) / constant::<T>(
            7i8,
        )).sqrt();
        let inner: T = ((constant::<T>(3i8) - constant::<T>(2i8) * root) / constant::<T>(
            7i8,
        )).sqrt();
        let light: T = (constant::<T>(18i8) - root30) / constant::<T>(36i8);
        let heavy: T = (constant::<T>(18i8) + root30) / constant::<T>(36i8);
        rule.push((outer.neg(), light));
        rule.push((inner.neg(), heavy));
        rule.push((inner, heavy));
        rule.push((outer, light));
        proof {
            if exact_arith::<T>() {
                assert(rule@ =~= rule_4(outer, inner, root30));
                assert(roots_fit(root, root30, outer, inner));
            }
        }
    }
    rule
}

/// The rule `rule` for `[-1, 1]` carried over to the interval `[a, b]`.
pub fn map_to_interval<T: Scalar>(rule: Vec<(T, T)>, a: T, b: T) -> (mapped: Vec<(T, T)>)
    requires
        total::<T>(),
    ensures
        mapped@.len() == rule@.len(),
        exact_arith::<T>() ==> mapped@ == on_interval(rule@, a, b),
{
    let mut points: Vec<(T, T)> = rule;
    let n: usize = points.len();
    for i in 0..n
        invariant
            total::<T>(),
            n == rule@.len(),
            points@.len() == n,
            forall|k: int| i <= k < n ==> points@[k] == rule@[k],
            exact_arith::<T>() ==> forall|k: int|
                0 <= k < i ==> points@[k] == on_interval(rule@, a, b)[k],
    {
        let (xi, wi) = points[i];
        let half: T = constant::<T>(1i8) / constant::<T>(2i8);
        let x: T = half * (b - a) * xi + half * (a + b);
        let w: T = half * (b - a) * wi;
        points[i] = (x, w);
    }
    proof {
        if exact_arith::<T>() {
            assert(points@ =~= on_interval(rule@, a, b));
        }
    }
    points
}

/// The Gauss-Legendre rule of order `n`, from one to four, on `[a, b]`.
pub fn glq_interval<T: Scalar + Elementary>(a: T, b: T, n: usize) -> (rule: Vec<(T, T)>)
    requires
        total::<T>(),
        neg_total::<T>(),
        1 <= n <= 4,
    ensures
        rule@.len() == n,
        exact_arith::<T>() ==> exists|unit: Seq<(T, T)>|
            is_rule(n as int, unit) && rule@ == #[trigger] on_interval(unit, a, b),
{
    let unit = glq_quadrature::<T>(n);
    map_to_interval(unit, a, b)
}

} // verus!

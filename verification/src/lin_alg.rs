//! Linear algebra: matrices, QR factorisation by Householder reflections, and
//! a solver for linear systems built on the factorisation.
//!
//! The factorisation takes one square root per column. A square root is a
//! method of [`Elementary`] and has no contract, so the contracts here name
//! the roots that were taken: a factorisation is what the reflections give
//! for some sequence of roots, each of them a root of the right number.
//! [`householder_step`] and [`back_substitute`] take no root and say exactly
//! what they return.
use vstd::prelude::*;
use vstd::std_specs::ops::{AddSpec, DivSpec, MulSpec, SubSpec};
use crate::lin_alg::grid::{sum_products, Grid};
use crate::lin_alg::mat::{fits, Matrix};
use crate::scalar::{
    add_total, at_least, constant, exact, exact_arith, exact_sums, is_at_least, minus_one,
    mul_total, one, sqrt_of, total, two, zero, Elementary, Scalar,
};

pub mod grid;
pub mod mat;

verus! {

/// Column `i` of `r` from the diagonal down, as a column matrix.
pub open spec fn column_tail<T>(r: Grid<T>, i: int) -> Grid<T> {
    Grid::from_fn((r.rows - i) as nat, 1, |j: int, c: int| r[i + j][i])
}

/// One if `x` is at least zero, minus one if not.
pub open spec fn sign_of<T: Scalar>(x: T) -> T {
    if at_least(x, zero::<T>()) {
        one::<T>()
    } else {
        minus_one::<T>()
    }
}

/// The Householder vector of the column `rv` whose norm is `norm`: `rv` with
/// the norm added to its first entry, under the sign of that entry.
pub open spec fn householder_vector<T: Scalar>(rv: Grid<T>, norm: T) -> Grid<T> {
    let e = Grid::<T>::zeros(rv.rows, 1).update(0, 0, norm);
    let sign = sign_of(rv[0][0]);
    Grid::from_fn(rv.rows, 1, |j: int, c: int| rv[j][0].add_spec(sign.mul_spec(e[j][0])))
}

/// The reflection across the hyperplane orthogonal to the column `v`:
/// `I - (2 * (1 / v.v)) * (v * v^t)`.
pub open spec fn reflector<T: Scalar>(v: Grid<T>) -> Grid<T> {
    let scale = two::<T>().mul_spec(one::<T>().div_spec(v.inner(v)));
    Grid::<T>::identity(v.rows).minus(v.times(v.transpose()).scalar_times(scale))
}

/// The square matrix of size `n` that is `sub` from place `(i, i)` on and the
/// identity elsewhere.
pub open spec fn embed<T: Scalar>(sub: Grid<T>, n: nat, i: int) -> Grid<T> {
    Grid::from_fn(
        n,
        n,
        |j: int, k: int|
            if j >= i && k >= i {
                sub[j - i][k - i]
            } else {
                Grid::<T>::identity(n)[j][k]
            },
    )
}

/// The reflection that clears column `i` of `r` below the diagonal, given
/// the norm of that column from the diagonal down.
pub open spec fn householder<T: Scalar>(r: Grid<T>, i: int, norm: T) -> Grid<T> {
    embed(reflector(householder_vector(column_tail(r, i), norm)), r.rows, i)
}

/// One step of the factorisation: with `h` the reflection for column `i`,
/// `q` becomes `q * h^t` and `r` becomes `h * r`.
pub open spec fn step<T: Scalar>(q: Grid<T>, r: Grid<T>, i: int, norm: T) -> (Grid<T>, Grid<T>) {
    let h = householder(r, i, norm);
    (q.times(h.transpose()), h.times(r))
}

/// The pair that the steps for the columns `0 .. norms.len()` make of the
/// identity and `a`, where `norms[k]` is taken for the norm in step `k`.
pub open spec fn reduce<T: Scalar>(a: Grid<T>, norms: Seq<T>) -> (Grid<T>, Grid<T>)
    decreases norms.len(),
{
    if norms.len() == 0 {
        (Grid::<T>::identity(a.rows), a)
    } else {
        let before = reduce(a, norms.drop_last());
        step(before.0, before.1, norms.len() - 1, norms.last())
    }
}

/// The number whose square root is the norm in step `k`: the dot product
/// with itself of column `k`, from the diagonal down, of the matrix that
/// the steps before have made of `a`.
pub open spec fn squared_norm<T: Scalar>(a: Grid<T>, norms: Seq<T>, k: int) -> T {
    let rv = column_tail(reduce(a, norms.take(k)).1, k);
    rv.inner(rv)
}

/// Each of `norms` is a square root, as `T` takes it, of the number that its
/// step asks for.
pub open spec fn norms_fit<T: Scalar + Elementary>(a: Grid<T>, norms: Seq<T>) -> bool {
    forall|k: int| 0 <= k < norms.len() ==> sqrt_of(squared_norm(a, norms, k), #[trigger] norms[k])
}

/// `(q, r)` is what the reflections make of `a`, one for each column, for
/// some square roots that `T` takes.
pub open spec fn is_factorisation<T: Scalar + Elementary>(
    a: Grid<T>,
    q: Grid<T>,
    r: Grid<T>,
) -> bool {
    exists|norms: Seq<T>|
        norms.len() == a.cols && norms_fit(a, norms) && #[trigger] reduce(a, norms) == (q, r)
}

/// The solution of the triangular system after the rows from `i` on have
/// been solved, last row first: zero above row `i`, and below it
/// `x[k] = (y[k] - (r[k][k+1]*x[k+1] + ... )) / r[k][k]`.
pub open spec fn solved_from<T: Scalar>(r: Grid<T>, y: Grid<T>, i: int) -> Seq<T>
    decreases r.rows - i,
{
    if i >= r.rows {
        Seq::new(r.cols, |j: int| zero::<T>())
    } else {
        let x = solved_from(r, y, i + 1);
        let sum = sum_products(zero::<T>(), r[i], x, i + 1, r.cols as int);
        x.update(i, y[i][0].sub_spec(sum).div_spec(r[i][i]))
    }
}

/// The solution `x` of `r * x = y` by back-substitution, as a column.
pub open spec fn back_substitution<T: Scalar>(r: Grid<T>, y: Grid<T>) -> Grid<T> {
    Grid::from_fn(r.cols, 1, |j: int, c: int| solved_from(r, y, 0)[j])
}

/// Column `i` of `r` from row `i` down, as a column matrix.
fn column_from_diagonal<T: Scalar>(r: &Matrix<T>, i: usize) -> (rv: Matrix<T>)
    requires
        i < r@.rows,
        i < r@.cols,
    ensures
        rv@ == column_tail(r@, i as int),
{
    let rows: usize = r.get_dim().0;
    let n: usize = rows - i;
    assert(n * 1 == n) by (nonlinear_arith);
    let mut rv: Matrix<T> = Matrix::new((n, 1));
    for j in i..rows
        invariant
            rows == r@.rows,
            i < r@.cols,
            n == rows - i,
            rv@.has_shape(n as nat, 1),
            forall|k: int| 0 <= k < j - i ==> #[trigger] rv@[k][0] == r@[i + k][i as int],
    {
        rv.set(j - i, 0, r.get(j, i));
    }
    proof {
        assert(rv@.cells =~~= column_tail(r@, i as int).cells);
    }
    rv
}

/// The norm of column `i` of `r` from the diagonal down.
pub fn column_norm<T: Scalar + Elementary>(r: &Matrix<T>, i: usize) -> (norm: T)
    requires
        add_total::<T>(),
        mul_total::<T>(),
        i < r@.rows,
        i < r@.cols,
    ensures
        exact_sums::<T>() ==> sqrt_of(
            column_tail(r@, i as int).inner(column_tail(r@, i as int)),
            norm,
        ),
{
    let rv = column_from_diagonal(r, i);
    rv.norm()
}

/// One step of the factorisation, for column `i`, with `norm` for the norm
/// of that column from the diagonal down.
pub fn householder_step<T: Scalar>(q: &Matrix<T>, r: &Matrix<T>, i: usize, norm: T) -> (next: (
    Matrix<T>,
    Matrix<T>,
))
    requires
        total::<T>(),
        q@.has_shape(r@.rows, r@.rows),
        i < r@.cols <= r@.rows,
        fits(r@.rows, r@.rows),
    ensures
        next.0@.has_shape(r@.rows, r@.rows),
        next.1@.has_shape(r@.rows, r@.cols),
        exact::<T>() ==> (next.0@, next.1@) == step(q@, r@, i as int, norm),
{
    let (rows, cols) = r.get_dim();
    let n: usize = rows - i;
    proof {
        assert(n * 1 == n) by (nonlinear_arith);
        assert(n * n <= rows * rows) by (nonlinear_arith)
            requires
                0 <= n <= rows,
        ;
        assert(rows * cols <= rows * rows) by (nonlinear_arith)
            requires
                0 <= cols <= rows,
        ;
    }
    let rv = column_from_diagonal(r, i);
    let mut e: Matrix<T> = Matrix::new((n, 1));
    e.set(0, 0, norm);
    let sign: T = if is_at_least(rv.get(0, 0), constant(0i8)) {
        constant(1i8)
    } else {
        constant::<T>(-1i8)
    };
    let mut v: Matrix<T> = Matrix::new((n, 1));
    for j in 0..n
        invariant
            total::<T>(),
            rv@.has_shape(n as nat, 1),
            e@.has_shape(n as nat, 1),
            v@.has_shape(n as nat, 1),
            exact::<T>() ==> forall|k: int|
                0 <= k < j ==> #[trigger] v@[k][0] == rv@[k][0].add_spec(sign.mul_spec(e@[k][0])),
    {
        v.set(j, 0, rv.get(j, 0) + sign * e.get(j, 0));
    }
    proof {
        if exact::<T>() {
            assert(v@.cells =~~= householder_vector(rv@, norm).cells);
        }
    }
    let v_dot: T = v.dot_product(&v);
    let scale: T = constant::<T>(2i8) * (constant::<T>(1i8) / v_dot);
    let outer: Matrix<T> = &v * &v.transpose();
    let sub_h: Matrix<T> = Matrix::identity(n) - Matrix::scalar_mul(scale, &outer);
    let mut h: Matrix<T> = Matrix::identity(rows);
    for j in i..rows
        invariant
            rows == r@.rows,
            n == rows - i,
            sub_h@.has_shape(n as nat, n as nat),
            h@.has_shape(rows as nat, rows as nat),
            exact::<T>() ==> forall|a: int, b: int|
                0 <= a < rows && 0 <= b < rows ==> #[trigger] h@[a][b] == (if i <= a < j && b >= i {
                    sub_h@[a - i][b - i]
                } else {
                    Grid::<T>::identity(rows as nat)[a][b]
                }),
    {
        for k in i..rows
            invariant
                rows == r@.rows,
                n == rows - i,
                i <= j < rows,
                sub_h@.has_shape(n as nat, n as nat),
                h@.has_shape(rows as nat, rows as nat),
                exact::<T>() ==> forall|a: int, b: int|
                    0 <= a < rows && 0 <= b < rows ==> #[trigger] h@[a][b] == (if (i <= a < j && b
                        >= i) || (a == j && i <= b < k) {
                        sub_h@[a - i][b - i]
                    } else {
                        Grid::<T>::identity(rows as nat)[a][b]
                    }),
        {
            h.set(j, k, sub_h.get(j - i, k - i));
        }
    }
    proof {
        if exact::<T>() {
            assert(sub_h@ == reflector(v@));
            assert(h@.cells =~~= embed(sub_h@, rows as nat, i as int).cells);
        }
    }
    let q_next: Matrix<T> = q * &h.transpose();
    let r_next: Matrix<T> = &h * r;
    (q_next, r_next)
}

/// The QR factorisation of `a`, which has at least as many rows as columns,
/// by Householder reflections: one reflection for each column, from the
/// left; `r` is what they make of `a`, and `q` is the product of their
/// transposes. The reflections are chosen so that `q` is orthogonal, `r` is
/// upper-triangular and `q * r` is `a` where the arithmetic is that of the
/// real numbers; the contract states the reflections, not these
/// consequences. A column that is zero from the diagonal down is not
/// detected: the division by its zero norm is left to the scalar type.
pub fn qr_decomposition<T: Scalar + Elementary>(a: &Matrix<T>) -> (qr: (Matrix<T>, Matrix<T>))
    requires
        total::<T>(),
        a@.rows >= a@.cols,
        fits(a@.rows, a@.rows),
    ensures
        qr.0@.has_shape(a@.rows, a@.rows),
        qr.1@.has_shape(a@.rows, a@.cols),
        exact::<T>() ==> is_factorisation(a@, qr.0@, qr.1@),
{
    let (rows, cols) = a.get_dim();
    let mut q: Matrix<T> = Matrix::identity(rows);
    let mut r: Matrix<T> = a.clone();
    let ghost mut norms: Seq<T> = Seq::empty();
    for i in 0..cols
        invariant
            total::<T>(),
            rows == a@.rows,
            cols == a@.cols,
            cols <= rows,
            fits(rows as nat, rows as nat),
            q@.has_shape(a@.rows, a@.rows),
            r@.has_shape(a@.rows, a@.cols),
            norms.len() == i,
            exact::<T>() ==> norms_fit(a@, norms) && reduce(a@, norms) == (q@, r@),
    {
        let norm: T = column_norm(&r, i);
        let next = householder_step(&q, &r, i, norm);
        proof {
            let longer = norms.push(norm);
            if exact::<T>() {
                assert(longer.drop_last() =~= norms);
                assert(longer.take(i as int) =~= norms);
                assert(reduce(a@, longer) == (next.0@, next.1@));
                assert forall|k: int| 0 <= k < longer.len() implies sqrt_of(
                    squared_norm(a@, longer, k),
                    #[trigger] longer[k],
                ) by {
                    if k < i {
                        assert(longer.take(k) =~= norms.take(k));
                        assert(sqrt_of(squared_norm(a@, norms, k), norms[k]));
                    }
                }
            }
            norms = longer;
        }
        q = next.0;
        r = next.1;
    }
    (q, r)
}

/// The solution `x` of the triangular system `r * x = y` by
/// back-substitution, last row first. A zero on the diagonal of `r` is not
/// detected: the division by it is left to the scalar type.
pub fn back_substitute<T: Scalar>(r: &Matrix<T>, y: &Matrix<T>) -> (x: Matrix<T>)
    requires
        total::<T>(),
        r@.rows == r@.cols,
        y@.has_shape(r@.rows, 1),
    ensures
        x@.has_shape(r@.cols, 1),
        exact_arith::<T>() ==> x@ == back_substitution(r@, y@),
{
    let (rows, cols) = r.get_dim();
    assert(cols * 1 == cols) by (nonlinear_arith);
    let mut x: Matrix<T> = Matrix::new((cols, 1));
    let mut i: usize = rows;
    while i > 0
        invariant
            total::<T>(),
            rows == r@.rows,
            cols == r@.cols,
            rows == cols,
            0 <= i <= rows,
            y@.has_shape(r@.rows, 1),
            x@.has_shape(r@.cols, 1),
            exact_arith::<T>() ==> x@.col(0) =~= solved_from(r@, y@, i as int),
        decreases i,
    {
        i = i - 1;
        let ghost xs = x@.col(0);
        let mut sum: T = constant(0i8);
        for j in (i + 1)..cols
            invariant
                total::<T>(),
                rows == r@.rows,
                cols == r@.cols,
                rows == cols,
                0 <= i < rows,
                x@.has_shape(r@.cols, 1),
                xs == x@.col(0),
                exact_arith::<T>() ==> sum == sum_products(
                    zero::<T>(),
                    r@[i as int],
                    xs,
                    i + 1,
                    j as int,
                ),
        {
            sum = sum + r.get(i, j) * x.get(j, 0);
        }
        x.set(i, 0, (y.get(i, 0) - sum) / r.get(i, i));
        proof {
            if exact_arith::<T>() {
                assert(x@.col(0) =~= solved_from(r@, y@, i as int));
            }
        }
    }
    proof {
        if exact_arith::<T>() {
            assert(x@.cells =~~= back_substitution(r@, y@).cells);
        }
    }
    x
}

/// `x` solves `a * x = b` as the solver does it: for some factorisation
/// `(q, r)` of `a`, it is the back-substitution of `q^t * b` into `r`.
pub open spec fn is_solution<T: Scalar + Elementary>(a: Grid<T>, b: Grid<T>, x: Grid<T>) -> bool {
    exists|q: Grid<T>, r: Grid<T>| #[trigger]
        is_factorisation(a, q, r) && x == back_substitution(r, q.transpose().times(b))
}

/// The solution `x` of `a * x = b` for a square `a` and a column `b`, by QR
/// factorisation and back-substitution. A singular `a` is not detected: the
/// division by a zero on the diagonal of its triangular factor is left to
/// the scalar type.
///
/// `a` is square: the factorisation asks for no more columns than rows,
/// and the solution has an entry for each column, which each row fills.
pub fn lin_solve<T: Scalar + Elementary>(a: &Matrix<T>, b: &Matrix<T>) -> (x: Matrix<T>)
    requires
        total::<T>(),
        a@.rows == b@.rows,
        b@.cols == 1,
        a@.rows == a@.cols,
        fits(a@.rows, a@.rows),
    ensures
        x@.has_shape(a@.cols, 1),
        exact::<T>() ==> is_solution(a@, b@, x@),
{
    let rows: usize = a.get_dim().0;
    assert(rows * 1 <= rows * rows) by (nonlinear_arith)
        requires
            0 <= rows,
    ;
    let (q, r) = qr_decomposition(a);
    let y: Matrix<T> = &q.transpose() * b;
    back_substitute(&r, &y)
}

} // verus!

//! The mathematical value of a matrix, and the operations of matrix algebra
//! on such values. Contracts of the executable matrix type are stated here.
//!
//! Sums are taken in a fixed order, one term after the other from the left,
//! beginning with zero: for a scalar type whose addition is not associative
//! the order is part of the value.
use vstd::prelude::*;
use vstd::std_specs::cmp::PartialEqSpec;
use vstd::std_specs::ops::{AddSpec, DivSpec, MulSpec, SubSpec};
use crate::scalar::{add_total, exact_sums, one, two, zero, Scalar};

verus! {

/// A matrix as a value: `rows` rows of `cols` entries each.
#[verifier::ext_equal]
pub struct Grid<T> {
    pub rows: nat,
    pub cols: nat,
    pub cells: Seq<Seq<T>>,
}

/// `acc + a[lo]*b[lo] + ... + a[hi-1]*b[hi-1]`, summed from the left.
pub open spec fn sum_products<T: Scalar>(acc: T, a: Seq<T>, b: Seq<T>, lo: int, hi: int) -> T
    decreases hi - lo,
{
    if hi <= lo {
        acc
    } else {
        sum_products(acc, a, b, lo, hi - 1).add_spec(a[hi - 1].mul_spec(b[hi - 1]))
    }
}

/// The operators accept every product and every sum on the way to
/// `sum_products(acc, a, b, lo, hi)`.
pub open spec fn sum_products_defined<T: Scalar>(
    acc: T,
    a: Seq<T>,
    b: Seq<T>,
    lo: int,
    hi: int,
) -> bool
    decreases hi - lo,
{
    hi <= lo || {
        &&& sum_products_defined(acc, a, b, lo, hi - 1)
        &&& a[hi - 1].mul_req(b[hi - 1])
        &&& sum_products(acc, a, b, lo, hi - 1).add_req(a[hi - 1].mul_spec(b[hi - 1]))
    }
}

/// A sum of products that is defined is defined up to every term before its
/// last.
pub proof fn lemma_sum_products_defined_prefix<T: Scalar>(
    acc: T,
    a: Seq<T>,
    b: Seq<T>,
    lo: int,
    k: int,
    hi: int,
)
    requires
        sum_products_defined(acc, a, b, lo, hi),
        k <= hi,
    ensures
        sum_products_defined(acc, a, b, lo, k),
    decreases hi - k,
{
    if k < hi && lo < hi {
        lemma_sum_products_defined_prefix(acc, a, b, lo, k, hi - 1);
    }
}

/// The dot product of two sequences of equal length.
pub open spec fn dot<T: Scalar>(a: Seq<T>, b: Seq<T>) -> T {
    sum_products(zero::<T>(), a, b, 0, a.len() as int)
}

impl<T> Grid<T> {
    /// The grid of the given shape whose entry at `(r, c)` is `f(r, c)`.
    pub open spec fn from_fn(rows: nat, cols: nat, f: spec_fn(int, int) -> T) -> Self {
        Grid { rows, cols, cells: Seq::new(rows, |r: int| Seq::new(cols, |c: int| f(r, c))) }
    }

    /// The cells agree with the shape.
    pub open spec fn wf(self) -> bool {
        &&& self.cells.len() == self.rows
        &&& forall|r: int| 0 <= r < self.rows ==> (#[trigger] self.cells[r]).len() == self.cols
    }

    /// Row `r`, so that `g[r][c]` is an entry.
    #[verifier::inline]
    pub open spec fn spec_index(self, r: int) -> Seq<T> {
        self.cells[r]
    }

    pub open spec fn has_shape(self, rows: nat, cols: nat) -> bool {
        self.wf() && self.rows == rows && self.cols == cols
    }

    pub open spec fn same_shape(self, other: Self) -> bool {
        self.rows == other.rows && self.cols == other.cols
    }

    pub open spec fn in_bounds(self, r: int, c: int) -> bool {
        0 <= r < self.rows && 0 <= c < self.cols
    }

    /// Column `c` from top to bottom.
    pub open spec fn col(self, c: int) -> Seq<T> {
        Seq::new(self.rows, |r: int| self[r][c])
    }

    /// The grid with the entry at `(r, c)` replaced by `x`.
    pub open spec fn update(self, r: int, c: int, x: T) -> Self {
        Grid { rows: self.rows, cols: self.cols, cells: self.cells.update(r, self[r].update(c, x)) }
    }

    pub open spec fn filled(rows: nat, cols: nat, x: T) -> Self {
        Self::from_fn(rows, cols, |r: int, c: int| x)
    }

    pub open spec fn transpose(self) -> Self {
        Self::from_fn(self.cols, self.rows, |r: int, c: int| self[c][r])
    }
}

impl<T: Scalar> Grid<T> {
    pub open spec fn zeros(rows: nat, cols: nat) -> Self {
        Self::filled(rows, cols, zero::<T>())
    }

    pub open spec fn identity(n: nat) -> Self {
        Self::from_fn(
            n,
            n,
            |r: int, c: int|
                if r == c {
                    one::<T>()
                } else {
                    zero::<T>()
                },
        )
    }

    /// `acc` plus the products of the entries of the first `n` rows with
    /// those of `other`, row after row.
    pub open spec fn inner_rows(self, other: Self, acc: T, n: int) -> T
        decreases n,
    {
        if n <= 0 {
            acc
        } else {
            sum_products(
                self.inner_rows(other, acc, n - 1),
                self[n - 1],
                other[n - 1],
                0,
                self.cols as int,
            )
        }
    }

    /// The sum over all positions of the products of the two entries there.
    pub open spec fn inner(self, other: Self) -> T {
        self.inner_rows(other, zero::<T>(), self.rows as int)
    }

    /// The operators accept every product and every sum on the way to
    /// `self.inner_rows(other, acc, n)`.
    pub open spec fn inner_rows_defined(self, other: Self, acc: T, n: int) -> bool
        decreases n,
    {
        n <= 0 || {
            &&& self.inner_rows_defined(other, acc, n - 1)
            &&& sum_products_defined(
                self.inner_rows(other, acc, n - 1),
                self[n - 1],
                other[n - 1],
                0,
                self.cols as int,
            )
        }
    }

    /// A sum over rows that is defined is defined up to every row before
    /// its last.
    pub proof fn lemma_inner_rows_defined_prefix(self, other: Self, acc: T, k: int, n: int)
        requires
            self.inner_rows_defined(other, acc, n),
            k <= n,
        ensures
            self.inner_rows_defined(other, acc, k),
        decreases n - k,
    {
        if k < n && 0 < n {
            self.lemma_inner_rows_defined_prefix(other, acc, k, n - 1);
        }
    }

    /// `self.inner(other)` can be computed: the shapes are equal, and either
    /// addition accepts all operands and every product is accepted, or the
    /// scalar type is exact in sums and products and the operators accept
    /// each step of this very sum.
    pub open spec fn inner_defined(self, other: Self) -> bool {
        &&& self.same_shape(other)
        &&& {
            ||| add_total::<T>() && self.products_defined(other)
            ||| exact_sums::<T>() && self.inner_rows_defined(
                other,
                zero::<T>(),
                self.rows as int,
            )
        }
    }

    /// Every entry of a row of `self` can be multiplied by every entry of
    /// `other` that it meets in the product.
    pub open spec fn cross_products_defined(self, other: Self) -> bool {
        forall|r: int, k: int, c: int|
            0 <= r < self.rows && 0 <= k < self.cols && 0 <= c < other.cols ==> (
            #[trigger] self[r][k]).mul_req(#[trigger] other[k][c])
    }

    /// The operators accept each step of the dot product of every row of
    /// `self` with every column of `other`.
    pub open spec fn dots_defined(self, other: Self) -> bool {
        forall|r: int, c: int|
            0 <= r < self.rows && 0 <= c < other.cols ==> sum_products_defined(
                zero::<T>(),
                #[trigger] self[r],
                #[trigger] other.col(c),
                0,
                self.cols as int,
            )
    }

    /// `self.times(other)` can be computed: the columns of `self` are as
    /// many as the rows of `other`, and either addition accepts all
    /// operands and every product is accepted, or the scalar type is exact
    /// in sums and products and the operators accept each step of these
    /// very dot products.
    pub open spec fn times_defined(self, other: Self) -> bool {
        &&& self.cols == other.rows
        &&& {
            ||| add_total::<T>() && self.cross_products_defined(other)
            ||| exact_sums::<T>() && self.dots_defined(other)
        }
    }

    /// The matrix product.
    pub open spec fn times(self, other: Self) -> Self {
        Self::from_fn(self.rows, other.cols, |r: int, c: int| dot(self[r], other.col(c)))
    }

    /// The two grids have one shape, and at every place the scalar type calls
    /// their entries equal.
    pub open spec fn entries_equal(self, other: Self) -> bool {
        &&& self.same_shape(other)
        &&& forall|r: int, c: int|
            self.in_bounds(r, c) ==> (#[trigger] self[r][c]).eq_spec(&other[r][c])
    }

    /// The two grids have one shape and every entry of `self` can be added to
    /// the entry of `other` at its place.
    pub open spec fn plus_defined(self, other: Self) -> bool {
        &&& self.same_shape(other)
        &&& forall|r: int, c: int|
            self.in_bounds(r, c) ==> (#[trigger] self[r][c]).add_req(other[r][c])
    }

    /// The two grids have one shape and every entry of `other` can be
    /// subtracted from the entry of `self` at its place.
    pub open spec fn minus_defined(self, other: Self) -> bool {
        &&& self.same_shape(other)
        &&& forall|r: int, c: int|
            self.in_bounds(r, c) ==> (#[trigger] self[r][c]).sub_req(other[r][c])
    }

    /// Every entry of `self` can be multiplied by the entry of `other` at its
    /// place.
    pub open spec fn products_defined(self, other: Self) -> bool {
        &&& self.same_shape(other)
        &&& forall|r: int, c: int|
            self.in_bounds(r, c) ==> (#[trigger] self[r][c]).mul_req(other[r][c])
    }

    /// `s + x` is accepted for every entry `x`.
    pub open spec fn scalar_plus_defined(self, s: T) -> bool {
        forall|r: int, c: int| self.in_bounds(r, c) ==> s.add_req(#[trigger] self[r][c])
    }

    /// `s - x` is accepted for every entry `x`.
    pub open spec fn scalar_minus_defined(self, s: T) -> bool {
        forall|r: int, c: int| self.in_bounds(r, c) ==> s.sub_req(#[trigger] self[r][c])
    }

    /// `x - s` is accepted for every entry `x`.
    pub open spec fn minus_scalar_defined(self, s: T) -> bool {
        forall|r: int, c: int| self.in_bounds(r, c) ==> (#[trigger] self[r][c]).sub_req(s)
    }

    /// `s * x` is accepted for every entry `x`.
    pub open spec fn scalar_times_defined(self, s: T) -> bool {
        forall|r: int, c: int| self.in_bounds(r, c) ==> s.mul_req(#[trigger] self[r][c])
    }

    /// `x / s` is accepted for every entry `x`.
    pub open spec fn over_scalar_defined(self, s: T) -> bool {
        forall|r: int, c: int| self.in_bounds(r, c) ==> (#[trigger] self[r][c]).div_req(s)
    }

    /// The entrywise sum.
    pub open spec fn plus(self, other: Self) -> Self {
        Self::from_fn(self.rows, self.cols, |r: int, c: int| self[r][c].add_spec(other[r][c]))
    }

    /// The entrywise difference.
    pub open spec fn minus(self, other: Self) -> Self {
        Self::from_fn(self.rows, self.cols, |r: int, c: int| self[r][c].sub_spec(other[r][c]))
    }

    /// `s + x` for every entry `x`.
    pub open spec fn scalar_plus(self, s: T) -> Self {
        Self::from_fn(self.rows, self.cols, |r: int, c: int| s.add_spec(self[r][c]))
    }

    /// `s - x` for every entry `x`.
    pub open spec fn scalar_minus(self, s: T) -> Self {
        Self::from_fn(self.rows, self.cols, |r: int, c: int| s.sub_spec(self[r][c]))
    }

    /// `x - s` for every entry `x`.
    pub open spec fn minus_scalar(self, s: T) -> Self {
        Self::from_fn(self.rows, self.cols, |r: int, c: int| self[r][c].sub_spec(s))
    }

    /// `s * x` for every entry `x`.
    pub open spec fn scalar_times(self, s: T) -> Self {
        Self::from_fn(self.rows, self.cols, |r: int, c: int| s.mul_spec(self[r][c]))
    }

    /// `x / s` for every entry `x`.
    pub open spec fn over_scalar(self, s: T) -> Self {
        Self::from_fn(self.rows, self.cols, |r: int, c: int| self[r][c].div_spec(s))
    }
}

/// Transposing twice gives the matrix back, entry for entry and shape for
/// shape.
pub proof fn lemma_transpose_involution<T>(g: Grid<T>)
    requires
        g.wf(),
    ensures
        g.transpose().transpose() == g,
{
    let t = g.transpose().transpose();
    assert forall|r: int| 0 <= r < g.rows implies #[trigger] t.cells[r] =~= g.cells[r] by {
        assert(g.cells[r].len() == g.cols);
    }
    assert(t.cells =~= g.cells);
}

/// The two ways of bracketing a product of three matrices give results of the
/// same shape: the rows of the first factor by the columns of the last.
pub proof fn lemma_product_shape<T: Scalar>(a: Grid<T>, b: Grid<T>, c: Grid<T>)
    ensures
        a.times(b).times(c).has_shape(a.rows, c.cols),
        a.times(b.times(c)).has_shape(a.rows, c.cols),
{
}

/// Adding a matrix to itself is scaling it by two, for a scalar type in
/// which adding a number to itself is multiplying it by two.
pub proof fn lemma_double_is_twice<T: Scalar>(g: Grid<T>)
    requires
        forall|x: T| #[trigger] x.add_spec(x) == two::<T>().mul_spec(x),
    ensures
        g.plus(g) == g.scalar_times(two::<T>()),
{
    assert(g.plus(g).cells =~~= g.scalar_times(two::<T>()).cells);
}

} // verus!

//! A dense matrix: its entries in one vector, row after row, and its shape.
use vstd::prelude::*;
use vstd::std_specs::cmp::PartialEqSpec;
use vstd::std_specs::convert::FromSpec;
use vstd::std_specs::ops::{AddSpec, DivSpec, MulSpec, SubSpec};
use crate::lin_alg::grid::{dot, lemma_sum_products_defined_prefix, sum_products, Grid};
use crate::scalar::{
    abs_of, add_total, constant, exact_sums, one, sqrt_of, zero, Elementary, Scalar,
};
use core::ops::{Add, Div, Mul, Sub};

verus! {

/// `rows * cols` entries of type `T`, stored row by row.
#[derive(Debug)]
pub struct Matrix<T> {
    data: Vec<T>,
    dim: (usize, usize),
}

/// An entry's place in the vector lies inside it.
proof fn lemma_place_in_range(r: int, c: int, rows: int, cols: int)
    requires
        0 <= r < rows,
        0 <= c < cols,
    ensures
        0 <= r * cols <= r * cols + c < rows * cols,
{
    assert(r * cols + cols <= rows * cols) by (nonlinear_arith)
        requires
            r + 1 <= rows,
            0 <= cols,
    ;
    assert(0 <= r * cols) by (nonlinear_arith)
        requires
            0 <= r,
            0 <= cols,
    ;
}

/// Two entries that share a place in the vector are one entry.
proof fn lemma_place_injective(r1: int, c1: int, r2: int, c2: int, cols: int)
    requires
        0 <= c1 < cols,
        0 <= c2 < cols,
        r1 * cols + c1 == r2 * cols + c2,
    ensures
        r1 == r2,
        c1 == c2,
{
    if r1 < r2 {
        assert(r1 * cols + cols <= r2 * cols) by (nonlinear_arith)
            requires
                r1 + 1 <= r2,
                0 <= cols,
        ;
    } else if r2 < r1 {
        assert(r2 * cols + cols <= r1 * cols) by (nonlinear_arith)
            requires
                r2 + 1 <= r1,
                0 <= cols,
        ;
    }
}

/// A matrix of this shape has no more entries than a vector can hold.
pub open spec fn fits(rows: nat, cols: nat) -> bool {
    rows * cols <= usize::MAX
}

impl<T> View for Matrix<T> {
    type V = Grid<T>;

    open spec fn view(&self) -> Grid<T> {
        Grid::from_fn(self.rows(), self.cols(), |r: int, c: int| self.at(r, c))
    }
}

impl<T> Matrix<T> {
    #[verifier::type_invariant]
    spec fn inv(self) -> bool {
        self.data@.len() == self.dim.0 * self.dim.1 <= usize::MAX
    }

    /// The number of rows.
    pub closed spec fn rows(&self) -> nat {
        self.dim.0 as nat
    }

    /// The number of columns.
    pub closed spec fn cols(&self) -> nat {
        self.dim.1 as nat
    }

    /// The entry in row `r` and column `c`.
    pub closed spec fn at(&self, r: int, c: int) -> T {
        self.data@[r * self.dim.1 + c]
    }
}

impl<T: Copy> Matrix<T> {
    /// The matrix of the given shape with `x` at every place.
    fn filled(dim: (usize, usize), x: T) -> (m: Self)
        requires
            fits(dim.0 as nat, dim.1 as nat),
        ensures
            m@ == Grid::filled(dim.0 as nat, dim.1 as nat, x),
    {
        let n: usize = dim.0 * dim.1;
        let mut data: Vec<T> = Vec::new();
        for i in 0..n
            invariant
                data@.len() == i,
                forall|k: int| 0 <= k < i ==> data@[k] == x,
        {
            data.push(x);
        }
        let m = Matrix { data, dim };
        proof {
            assert forall|r: int, c: int| 0 <= r < dim.0 && 0 <= c < dim.1 implies m.at(r, c)
                == x by {
                lemma_place_in_range(r, c, dim.0 as int, dim.1 as int);
            }
            assert(m@.cells =~~= Grid::filled(dim.0 as nat, dim.1 as nat, x).cells);
        }
        m
    }

    /// The matrix of the same shape whose entries are those of `self` with
    /// `f` applied.
    fn map<F: Fn(T) -> T>(&self, f: F) -> (m: Self)
        requires
            forall|r: int, c: int| self@.in_bounds(r, c) ==> f.requires((#[trigger] self@[r][c],)),
        ensures
            m@.has_shape(self@.rows, self@.cols),
            forall|r: int, c: int|
                self@.in_bounds(r, c) ==> f.ensures((self@[r][c],), #[trigger] m@[r][c]),
    {
        proof {
            use_type_invariant(self);
        }
        let (rows, cols) = self.dim;
        let mut data: Vec<T> = Vec::new();
        for r in 0..rows
            invariant
                rows == self@.rows,
                cols == self@.cols,
                data@.len() == r * cols,
                forall|i: int, j: int| self@.in_bounds(i, j) ==> f.requires((#[trigger] self@[i][j],)),
                forall|i: int, j: int|
                    0 <= i < r && 0 <= j < cols ==> f.ensures(
                        (#[trigger] self@[i][j],),
                        data@[i * cols + j],
                    ),
        {
            for c in 0..cols
                invariant
                    rows == self@.rows,
                    cols == self@.cols,
                    0 <= r < rows,
                    data@.len() == r * cols + c,
                    forall|i: int, j: int|
                        self@.in_bounds(i, j) ==> f.requires((#[trigger] self@[i][j],)),
                    forall|i: int, j: int|
                        0 <= i < r && 0 <= j < cols ==> f.ensures(
                            (#[trigger] self@[i][j],),
                            data@[i * cols + j],
                        ),
                    forall|j: int|
                        0 <= j < c ==> f.ensures(
                            (#[trigger] self@[r as int][j],),
                            data@[r * cols + j],
                        ),
            {
                let ghost before = data@;
                let x: T = self.get(r, c);
                data.push(f(x));
                proof {
                    assert forall|i: int, j: int| 0 <= i < r && 0 <= j < cols implies f.ensures(
                        (#[trigger] self@[i][j],),
                        data@[i * cols + j],
                    ) by {
                        lemma_place_in_range(i, j, r as int, cols as int);
                        assert(data@[i * cols + j] == before[i * cols + j]);
                    }
                }
            }
            proof {
                assert((r + 1) * cols == r * cols + cols) by (nonlinear_arith);
            }
        }
        let m = Matrix { data, dim: self.dim };
        m
    }

    /// The matrix of the same shape whose entries are `f` of the entries of
    /// `self` and `rhs` at the same place.
    fn zip_with<F: Fn(T, T) -> T>(&self, rhs: &Self, f: F) -> (m: Self)
        requires
            self@.same_shape(rhs@),
            forall|r: int, c: int|
                self@.in_bounds(r, c) ==> f.requires((#[trigger] self@[r][c], rhs@[r][c])),
        ensures
            m@.has_shape(self@.rows, self@.cols),
            forall|r: int, c: int|
                self@.in_bounds(r, c) ==> f.ensures(
                    (self@[r][c], rhs@[r][c]),
                    #[trigger] m@[r][c],
                ),
    {
        proof {
            use_type_invariant(self);
        }
        let (rows, cols) = self.dim;
        let mut data: Vec<T> = Vec::new();
        for r in 0..rows
            invariant
                rows == self@.rows,
                cols == self@.cols,
                self@.same_shape(rhs@),
                data@.len() == r * cols,
                forall|i: int, j: int|
                    self@.in_bounds(i, j) ==> f.requires((#[trigger] self@[i][j], rhs@[i][j])),
                forall|i: int, j: int|
                    0 <= i < r && 0 <= j < cols ==> f.ensures(
                        (#[trigger] self@[i][j], rhs@[i][j]),
                        data@[i * cols + j],
                    ),
        {
            for c in 0..cols
                invariant
                    rows == self@.rows,
                    cols == self@.cols,
                    self@.same_shape(rhs@),
                    0 <= r < rows,
                    data@.len() == r * cols + c,
                    forall|i: int, j: int|
                        self@.in_bounds(i, j) ==> f.requires((#[trigger] self@[i][j], rhs@[i][j])),
                    forall|i: int, j: int|
                        0 <= i < r && 0 <= j < cols ==> f.ensures(
                            (#[trigger] self@[i][j], rhs@[i][j]),
                            data@[i * cols + j],
                        ),
                    forall|j: int|
                        0 <= j < c ==> f.ensures(
                            (#[trigger] self@[r as int][j], rhs@[r as int][j]),
                            data@[r * cols + j],
                        ),
            {
                let ghost before = data@;
                let x: T = self.get(r, c);
                let y: T = rhs.get(r, c);
                data.push(f(x, y));
                proof {
                    assert forall|i: int, j: int| 0 <= i < r && 0 <= j < cols implies f.ensures(
                        (#[trigger] self@[i][j], rhs@[i][j]),
                        data@[i * cols + j],
                    ) by {
                        lemma_place_in_range(i, j, r as int, cols as int);
                        assert(data@[i * cols + j] == before[i * cols + j]);
                    }
                }
            }
            proof {
                assert((r + 1) * cols == r * cols + cols) by (nonlinear_arith);
            }
        }
        let m = Matrix { data, dim: self.dim };
        m
    }

    /// Writes `val` at row `r`, column `c`.
    pub fn set(&mut self, r: usize, c: usize, val: T)
        requires
            old(self)@.in_bounds(r as int, c as int),
        ensures
            final(self)@ == old(self)@.update(r as int, c as int, val),
    {
        proof {
            use_type_invariant(&*self);
            lemma_place_in_range(r as int, c as int, self.dim.0 as int, self.dim.1 as int);
        }
        let cols: usize = self.dim.1;
        let i: usize = r * cols + c;
        let ghost before = *self;
        self.data[i] = val;
        proof {
            let want = before@.update(r as int, c as int, val);
            assert forall|r2: int, c2: int|
                0 <= r2 < self.rows() && 0 <= c2 < self.cols() implies #[trigger] self.at(r2, c2)
                == want[r2][c2] by {
                lemma_place_in_range(r2, c2, self.dim.0 as int, self.dim.1 as int);
                if r2 * cols + c2 == i {
                    lemma_place_injective(r2, c2, r as int, c as int, cols as int);
                }
            }
            assert(self@.cells =~~= want.cells);
        }
    }

    /// The entry at row `r`, column `c`.
    pub fn get(&self, r: usize, c: usize) -> (val: T)
        requires
            self@.in_bounds(r as int, c as int),
        ensures
            val == self@[r as int][c as int],
    {
        proof {
            use_type_invariant(self);
            lemma_place_in_range(r as int, c as int, self.dim.0 as int, self.dim.1 as int);
        }
        self.data[r * self.dim.1 + c]
    }

    /// The shape: rows, then columns.
    pub fn get_dim(&self) -> (dim: (usize, usize))
        ensures
            dim.0 == self@.rows,
            dim.1 == self@.cols,
    {
        self.dim
    }
}

impl<T: Scalar> Matrix<T> {
    /// The matrix of shape `dim` (rows, then columns) with zero at every
    /// place.
    pub fn new(dim: (usize, usize)) -> (m: Self)
        requires
            fits(dim.0 as nat, dim.1 as nat),
        ensures
            m@.has_shape(dim.0 as nat, dim.1 as nat),
            T::obeys_from_spec() ==> m@ == Grid::<T>::zeros(dim.0 as nat, dim.1 as nat),
    {
        let z: T = constant(0i8);
        Self::filled(dim, z)
    }

    /// The square matrix of the given size with one on the diagonal and zero
    /// elsewhere.
    pub fn identity(size: usize) -> (m: Self)
        requires
            fits(size as nat, size as nat),
        ensures
            m@.has_shape(size as nat, size as nat),
            T::obeys_from_spec() ==> m@ == Grid::<T>::identity(size as nat),
    {
        let mut mat: Matrix<T> = Matrix::new((size, size));
        let unit: T = constant(1i8);
        for i in 0..size
            invariant
                mat@.has_shape(size as nat, size as nat),
                T::obeys_from_spec() ==> unit == one::<T>(),
                T::obeys_from_spec() ==> forall|r: int, c: int|
                    0 <= r < size && 0 <= c < size ==> #[trigger] mat@[r][c] == (if r == c && r
                        < i {
                        one::<T>()
                    } else {
                        zero::<T>()
                    }),
        {
            mat.set(i, i, unit);
        }
        proof {
            if T::obeys_from_spec() {
                assert(mat@.cells =~~= Grid::<T>::identity(size as nat).cells);
            }
        }
        mat
    }

    /// The matrix with rows and columns exchanged.
    pub fn transpose(&self) -> (t: Self)
        ensures
            t@ == self@.transpose(),
    {
        proof {
            use_type_invariant(self);
            assert(self.dim.1 * self.dim.0 == self.dim.0 * self.dim.1) by (nonlinear_arith);
        }
        let mut result: Matrix<T> = Matrix::new((self.dim.1, self.dim.0));
        for r in 0..self.dim.0
            invariant
                result@.has_shape(self@.cols, self@.rows),
                self.dim.0 == self@.rows,
                self.dim.1 == self@.cols,
                forall|i: int, j: int|
                    0 <= i < r && 0 <= j < self@.cols ==> #[trigger] result@[j][i] == self@[i][j],
        {
            for c in 0..self.dim.1
                invariant
                    result@.has_shape(self@.cols, self@.rows),
                    self.dim.0 == self@.rows,
                    self.dim.1 == self@.cols,
                    0 <= r < self@.rows,
                    forall|i: int, j: int|
                        0 <= i < r && 0 <= j < self@.cols ==> #[trigger] result@[j][i]
                            == self@[i][j],
                    forall|j: int| 0 <= j < c ==> #[trigger] result@[j][r as int] == self@[r as int][j],
            {
                result.set(c, r, self.get(r, c));
            }
        }
        proof {
            assert(result@.cells =~~= self@.transpose().cells);
        }
        result
    }
}

impl<T: Scalar> Matrix<T> {
    /// The sum over all places of the products of the two entries there,
    /// taken row by row.
    pub fn dot_product(&self, rhs: &Self) -> (sum: T)
        requires
            self@.inner_defined(rhs@),
        ensures
            exact_sums::<T>() ==> sum == self@.inner(rhs@),
    {
        let ghost exact = exact_sums::<T>();
        let (rows, cols) = self.get_dim();
        let mut sum: T = constant(0i8);
        for r in 0..rows
            invariant
                rows == self@.rows,
                cols == self@.cols,
                self@.inner_defined(rhs@),
                exact == exact_sums::<T>(),
                exact ==> sum == self@.inner_rows(rhs@, zero::<T>(), r as int),
        {
            for c in 0..cols
                invariant
                    rows == self@.rows,
                    cols == self@.cols,
                    self@.inner_defined(rhs@),
                    0 <= r < rows,
                    exact == exact_sums::<T>(),
                    exact ==> sum == sum_products(
                        self@.inner_rows(rhs@, zero::<T>(), r as int),
                        self@[r as int],
                        rhs@[r as int],
                        0,
                        c as int,
                    ),
            {
                proof {
                    if !(add_total::<T>() && self@.products_defined(rhs@)) {
                        self@.lemma_inner_rows_defined_prefix(
                            rhs@,
                            zero::<T>(),
                            r + 1,
                            rows as int,
                        );
                        lemma_sum_products_defined_prefix(
                            self@.inner_rows(rhs@, zero::<T>(), r as int),
                            self@[r as int],
                            rhs@[r as int],
                            0,
                            c + 1,
                            cols as int,
                        );
                    }
                }
                sum = sum + self.get(r, c) * rhs.get(r, c);
            }
        }
        sum
    }
}

impl<T: Scalar + Elementary> Matrix<T> {
    /// The square root of the dot product of the matrix with itself.
    pub fn norm(&self) -> (n: T)
        requires
            self@.inner_defined(self@),
        ensures
            exact_sums::<T>() ==> sqrt_of(
                self@.inner(self@),
                n,
            ),
    {
        self.dot_product(self).sqrt()
    }

    /// The matrix of the absolute values of the entries.
    pub fn abs(&self) -> (m: Matrix<T>)
        ensures
            m@.has_shape(self@.rows, self@.cols),
            forall|r: int, c: int| self@.in_bounds(r, c) ==> abs_of(self@[r][c], #[trigger] m@[r][c]),
    {
        self.map(|x: T| -> (y: T)
            ensures
                abs_of(x, y),
            { x.abs() })
    }
}

// Entrywise arithmetic, under names. The operators further down forward to
// these.
impl<T: Scalar> Matrix<T> {
    /// The entrywise sum of two matrices of one shape.
    pub fn plus(&self, rhs: &Matrix<T>) -> (m: Matrix<T>)
        requires
            self@.plus_defined(rhs@),
        ensures
            m@.has_shape(self@.rows, self@.cols),
            T::obeys_add_spec() ==> m@ == self@.plus(rhs@),
    {
        let m = self.zip_with(
            rhs,
            |x: T, y: T| -> (z: T)
                requires
                    x.add_req(y),
                ensures
                    T::obeys_add_spec() ==> z == x.add_spec(y),
                { x + y }
        );
        proof {
            if T::obeys_add_spec() {
                assert(m@.cells =~~= self@.plus(rhs@).cells);
            }
        }
        m
    }

    /// The entrywise difference of two matrices of one shape.
    pub fn minus(&self, rhs: &Matrix<T>) -> (m: Matrix<T>)
        requires
            self@.minus_defined(rhs@),
        ensures
            m@.has_shape(self@.rows, self@.cols),
            T::obeys_sub_spec() ==> m@ == self@.minus(rhs@),
    {
        let m = self.zip_with(
            rhs,
            |x: T, y: T| -> (z: T)
                requires
                    x.sub_req(y),
                ensures
                    T::obeys_sub_spec() ==> z == x.sub_spec(y),
                { x - y }
        );
        proof {
            if T::obeys_sub_spec() {
                assert(m@.cells =~~= self@.minus(rhs@).cells);
            }
        }
        m
    }

    /// `lhs + x` for every entry `x` of `rhs`.
    pub fn scalar_add(lhs: T, rhs: &Matrix<T>) -> (m: Matrix<T>)
        requires
            rhs@.scalar_plus_defined(lhs),
        ensures
            m@.has_shape(rhs@.rows, rhs@.cols),
            T::obeys_add_spec() ==> m@ == rhs@.scalar_plus(lhs),
    {
        let m = rhs.map(
            |x: T| -> (z: T)
                requires
                    lhs.add_req(x),
                ensures
                    T::obeys_add_spec() ==> z == lhs.add_spec(x),
                { lhs + x }
        );
        proof {
            if T::obeys_add_spec() {
                assert(m@.cells =~~= rhs@.scalar_plus(lhs).cells);
            }
        }
        m
    }

    /// `lhs - x` for every entry `x` of `rhs`.
    pub fn scalar_sub(lhs: T, rhs: &Matrix<T>) -> (m: Matrix<T>)
        requires
            rhs@.scalar_minus_defined(lhs),
        ensures
            m@.has_shape(rhs@.rows, rhs@.cols),
            T::obeys_sub_spec() ==> m@ == rhs@.scalar_minus(lhs),
    {
        let m = rhs.map(
            |x: T| -> (z: T)
                requires
                    lhs.sub_req(x),
                ensures
                    T::obeys_sub_spec() ==> z == lhs.sub_spec(x),
                { lhs - x }
        );
        proof {
            if T::obeys_sub_spec() {
                assert(m@.cells =~~= rhs@.scalar_minus(lhs).cells);
            }
        }
        m
    }

    /// `lhs * x` for every entry `x` of `rhs`.
    pub fn scalar_mul(lhs: T, rhs: &Matrix<T>) -> (m: Matrix<T>)
        requires
            rhs@.scalar_times_defined(lhs),
        ensures
            m@.has_shape(rhs@.rows, rhs@.cols),
            T::obeys_mul_spec() ==> m@ == rhs@.scalar_times(lhs),
    {
        let m = rhs.map(
            |x: T| -> (z: T)
                requires
                    lhs.mul_req(x),
                ensures
                    T::obeys_mul_spec() ==> z == lhs.mul_spec(x),
                { lhs * x }
        );
        proof {
            if T::obeys_mul_spec() {
                assert(m@.cells =~~= rhs@.scalar_times(lhs).cells);
            }
        }
        m
    }

    /// `x - rhs` for every entry `x` of `self`.
    pub fn minus_scalar(&self, rhs: T) -> (m: Matrix<T>)
        requires
            self@.minus_scalar_defined(rhs),
        ensures
            m@.has_shape(self@.rows, self@.cols),
            T::obeys_sub_spec() ==> m@ == self@.minus_scalar(rhs),
    {
        let m = self.map(
            |x: T| -> (z: T)
                requires
                    x.sub_req(rhs),
                ensures
                    T::obeys_sub_spec() ==> z == x.sub_spec(rhs),
                { x - rhs }
        );
        proof {
            if T::obeys_sub_spec() {
                assert(m@.cells =~~= self@.minus_scalar(rhs).cells);
            }
        }
        m
    }

    /// `x / rhs` for every entry `x` of `self`. A divisor that the scalar type
    /// accepts is not examined further: what `x / rhs` is for a zero `rhs` is
    /// the type's affair.
    pub fn over_scalar(&self, rhs: T) -> (m: Matrix<T>)
        requires
            self@.over_scalar_defined(rhs),
        ensures
            m@.has_shape(self@.rows, self@.cols),
            T::obeys_div_spec() ==> m@ == self@.over_scalar(rhs),
    {
        let m = self.map(
            |x: T| -> (z: T)
                requires
                    x.div_req(rhs),
                ensures
                    T::obeys_div_spec() ==> z == x.div_spec(rhs),
                { x / rhs }
        );
        proof {
            if T::obeys_div_spec() {
                assert(m@.cells =~~= self@.over_scalar(rhs).cells);
            }
        }
        m
    }
}

impl<T: Scalar> Matrix<T> {
    /// The matrix product: the entry at `(r, c)` is the dot product of row
    /// `r` of `self` and column `c` of `rhs`.
    pub fn times(&self, rhs: &Matrix<T>) -> (m: Matrix<T>)
        requires
            self@.times_defined(rhs@),
            fits(self@.rows, rhs@.cols),
        ensures
            m@.has_shape(self@.rows, rhs@.cols),
            exact_sums::<T>() ==> m@
                == self@.times(rhs@),
    {
        let ghost exact = exact_sums::<T>();
        let (rows, inner) = self.get_dim();
        let cols: usize = rhs.get_dim().1;
        let mut result: Matrix<T> = Matrix::new((rows, cols));
        for r1 in 0..rows
            invariant
                rows == self@.rows,
                inner == self@.cols,
                cols == rhs@.cols,
                self@.times_defined(rhs@),
                result@.has_shape(self@.rows, rhs@.cols),
                exact == exact_sums::<T>(),
                exact ==> forall|i: int, j: int|
                    0 <= i < r1 && 0 <= j < cols ==> #[trigger] result@[i][j] == dot(
                        self@[i],
                        rhs@.col(j),
                    ),
        {
            for c2 in 0..cols
                invariant
                    rows == self@.rows,
                    inner == self@.cols,
                    cols == rhs@.cols,
                    0 <= r1 < rows,
                    self@.times_defined(rhs@),
                    result@.has_shape(self@.rows, rhs@.cols),
                    exact == exact_sums::<T>(),
                    exact ==> forall|i: int, j: int|
                        0 <= i < r1 && 0 <= j < cols ==> #[trigger] result@[i][j] == dot(
                            self@[i],
                            rhs@.col(j),
                        ),
                    exact ==> forall|j: int|
                        0 <= j < c2 ==> #[trigger] result@[r1 as int][j] == dot(
                            self@[r1 as int],
                            rhs@.col(j),
                        ),
            {
                let mut sum: T = constant(0i8);
                for c1 in 0..inner
                    invariant
                        rows == self@.rows,
                        inner == self@.cols,
                        cols == rhs@.cols,
                        0 <= r1 < rows,
                        0 <= c2 < cols,
                        self@.times_defined(rhs@),
                        exact == exact_sums::<T>(),
                        exact ==> sum == sum_products(
                            zero::<T>(),
                            self@[r1 as int],
                            rhs@.col(c2 as int),
                            0,
                            c1 as int,
                        ),
                {
                    proof {
                        if !(add_total::<T>() && self@.cross_products_defined(rhs@)) {
                            lemma_sum_products_defined_prefix(
                                zero::<T>(),
                                self@[r1 as int],
                                rhs@.col(c2 as int),
                                0,
                                c1 + 1,
                                inner as int,
                            );
                        }
                    }
                    sum = sum + self.get(r1, c1) * rhs.get(c1, c2);
                }
                result.set(r1, c2, sum);
            }
        }
        proof {
            if exact {
                assert(result@.cells =~~= self@.times(rhs@).cells);
            }
        }
        result
    }
}

// Operators. A matrix is no value that a specification can build, so the
// operator impls promise nothing through `add_spec` and its like
// (`obeys_add_spec` is false and `add_spec` is left arbitrary): what an
// operator returns is stated by its own `ensures`, over views. The `_req`
// functions say which operands an operator accepts.

impl<'a, 'b, T: Scalar> vstd::std_specs::ops::AddSpecImpl<&'b Matrix<T>> for &'a Matrix<T> {
    open spec fn obeys_add_spec() -> bool {
        false
    }

    open spec fn add_req(self, rhs: &'b Matrix<T>) -> bool {
        self@.plus_defined(rhs@)
    }

    open spec fn add_spec(self, rhs: &'b Matrix<T>) -> Matrix<T> {
        arbitrary()
    }
}

/// `&a + &b`: the entrywise sum.
impl<'a, 'b, T: Scalar> Add<&'b Matrix<T>> for &'a Matrix<T> {
    type Output = Matrix<T>;

    fn add(self, rhs: &'b Matrix<T>) -> (m: Matrix<T>)
        ensures
            m@.has_shape(self@.rows, self@.cols),
            T::obeys_add_spec() ==> m@ == self@.plus(rhs@),
    {
        self.plus(rhs)
    }
}

impl<T: Scalar> vstd::std_specs::ops::AddSpecImpl for Matrix<T> {
    open spec fn obeys_add_spec() -> bool {
        false
    }

    open spec fn add_req(self, rhs: Matrix<T>) -> bool {
        self@.plus_defined(rhs@)
    }

    open spec fn add_spec(self, rhs: Matrix<T>) -> Matrix<T> {
        arbitrary()
    }
}

/// `a + b`: the entrywise sum.
impl<T: Scalar> Add for Matrix<T> {
    type Output = Matrix<T>;

    fn add(self, rhs: Matrix<T>) -> (m: Matrix<T>)
        ensures
            m@.has_shape(self@.rows, self@.cols),
            T::obeys_add_spec() ==> m@ == self@.plus(rhs@),
    {
        self.plus(&rhs)
    }
}

impl<'a, T: Scalar> vstd::std_specs::ops::AddSpecImpl<T> for &'a Matrix<T> {
    open spec fn obeys_add_spec() -> bool {
        false
    }

    open spec fn add_req(self, rhs: T) -> bool {
        self@.scalar_plus_defined(rhs)
    }

    open spec fn add_spec(self, rhs: T) -> Matrix<T> {
        arbitrary()
    }
}

/// `&a + s`: the scalar added to every entry, the scalar on the left of each sum.
impl<'a, T: Scalar> Add<T> for &'a Matrix<T> {
    type Output = Matrix<T>;

    fn add(self, rhs: T) -> (m: Matrix<T>)
        ensures
            m@.has_shape(self@.rows, self@.cols),
            T::obeys_add_spec() ==> m@ == self@.scalar_plus(rhs),
    {
        Matrix::scalar_add(rhs, self)
    }
}

impl<'a, 'b, T: Scalar> vstd::std_specs::ops::SubSpecImpl<&'b Matrix<T>> for &'a Matrix<T> {
    open spec fn obeys_sub_spec() -> bool {
        false
    }

    open spec fn sub_req(self, rhs: &'b Matrix<T>) -> bool {
        self@.minus_defined(rhs@)
    }

    open spec fn sub_spec(self, rhs: &'b Matrix<T>) -> Matrix<T> {
        arbitrary()
    }
}

/// `&a - &b`: the entrywise difference.
impl<'a, 'b, T: Scalar> Sub<&'b Matrix<T>> for &'a Matrix<T> {
    type Output = Matrix<T>;

    fn sub(self, rhs: &'b Matrix<T>) -> (m: Matrix<T>)
        ensures
            m@.has_shape(self@.rows, self@.cols),
            T::obeys_sub_spec() ==> m@ == self@.minus(rhs@),
    {
        self.minus(rhs)
    }
}

impl<T: Scalar> vstd::std_specs::ops::SubSpecImpl for Matrix<T> {
    open spec fn obeys_sub_spec() -> bool {
        false
    }

    open spec fn sub_req(self, rhs: Matrix<T>) -> bool {
        self@.minus_defined(rhs@)
    }

    open spec fn sub_spec(self, rhs: Matrix<T>) -> Matrix<T> {
        arbitrary()
    }
}

/// `a - b`: the entrywise difference.
impl<T: Scalar> Sub for Matrix<T> {
    type Output = Matrix<T>;

    fn sub(self, rhs: Matrix<T>) -> (m: Matrix<T>)
        ensures
            m@.has_shape(self@.rows, self@.cols),
            T::obeys_sub_spec() ==> m@ == self@.minus(rhs@),
    {
        self.minus(&rhs)
    }
}

impl<'a, T: Scalar> vstd::std_specs::ops::SubSpecImpl<T> for &'a Matrix<T> {
    open spec fn obeys_sub_spec() -> bool {
        false
    }

    open spec fn sub_req(self, rhs: T) -> bool {
        self@.minus_scalar_defined(rhs)
    }

    open spec fn sub_spec(self, rhs: T) -> Matrix<T> {
        arbitrary()
    }
}

/// `&a - s`: the scalar subtracted from every entry.
impl<'a, T: Scalar> Sub<T> for &'a Matrix<T> {
    type Output = Matrix<T>;

    fn sub(self, rhs: T) -> (m: Matrix<T>)
        ensures
            m@.has_shape(self@.rows, self@.cols),
            T::obeys_sub_spec() ==> m@ == self@.minus_scalar(rhs),
    {
        self.minus_scalar(rhs)
    }
}

impl<'a, T: Scalar> vstd::std_specs::ops::MulSpecImpl<T> for &'a Matrix<T> {
    open spec fn obeys_mul_spec() -> bool {
        false
    }

    open spec fn mul_req(self, rhs: T) -> bool {
        self@.scalar_times_defined(rhs)
    }

    open spec fn mul_spec(self, rhs: T) -> Matrix<T> {
        arbitrary()
    }
}

/// `&a * s`: every entry multiplied by the scalar, the scalar on the left of each
/// product.
impl<'a, T: Scalar> Mul<T> for &'a Matrix<T> {
    type Output = Matrix<T>;

    fn mul(self, rhs: T) -> (m: Matrix<T>)
        ensures
            m@.has_shape(self@.rows, self@.cols),
            T::obeys_mul_spec() ==> m@ == self@.scalar_times(rhs),
    {
        Matrix::scalar_mul(rhs, self)
    }
}

impl<'a, T: Scalar> vstd::std_specs::ops::DivSpecImpl<T> for &'a Matrix<T> {
    open spec fn obeys_div_spec() -> bool {
        false
    }

    open spec fn div_req(self, rhs: T) -> bool {
        self@.over_scalar_defined(rhs)
    }

    open spec fn div_spec(self, rhs: T) -> Matrix<T> {
        arbitrary()
    }
}

/// `&a / s`: every entry divided by the scalar.
impl<'a, T: Scalar> Div<T> for &'a Matrix<T> {
    type Output = Matrix<T>;

    fn div(self, rhs: T) -> (m: Matrix<T>)
        ensures
            m@.has_shape(self@.rows, self@.cols),
            T::obeys_div_spec() ==> m@ == self@.over_scalar(rhs),
    {
        self.over_scalar(rhs)
    }
}

impl<'a, 'b, T: Scalar> vstd::std_specs::ops::MulSpecImpl<&'b Matrix<T>> for &'a Matrix<T> {
    open spec fn obeys_mul_spec() -> bool {
        false
    }

    open spec fn mul_req(self, rhs: &'b Matrix<T>) -> bool {
        &&& self@.times_defined(rhs@)
        &&& fits(self@.rows, rhs@.cols)
    }

    open spec fn mul_spec(self, rhs: &'b Matrix<T>) -> Matrix<T> {
        arbitrary()
    }
}

/// `&a * &b`: the matrix product.
impl<'a, 'b, T: Scalar> Mul<&'b Matrix<T>> for &'a Matrix<T> {
    type Output = Matrix<T>;

    fn mul(self, rhs: &'b Matrix<T>) -> (m: Matrix<T>)
        ensures
            m@.has_shape(self@.rows, rhs@.cols),
            exact_sums::<T>() ==> m@
                == self@.times(rhs@),
    {
        self.times(rhs)
    }
}

impl<T: Scalar> vstd::std_specs::ops::MulSpecImpl for Matrix<T> {
    open spec fn obeys_mul_spec() -> bool {
        false
    }

    open spec fn mul_req(self, rhs: Matrix<T>) -> bool {
        &&& self@.times_defined(rhs@)
        &&& fits(self@.rows, rhs@.cols)
    }

    open spec fn mul_spec(self, rhs: Matrix<T>) -> Matrix<T> {
        arbitrary()
    }
}

/// `a * b`: the matrix product.
impl<T: Scalar> Mul for Matrix<T> {
    type Output = Matrix<T>;

    fn mul(self, rhs: Matrix<T>) -> (m: Matrix<T>)
        ensures
            m@.has_shape(self@.rows, rhs@.cols),
            exact_sums::<T>() ==> m@
                == self@.times(rhs@),
    {
        self.times(&rhs)
    }
}

/// `a == b`: the shapes are equal and so are the entries at every place, as
/// the scalar type compares them.
impl<T: Scalar> PartialEq for Matrix<T> {
    fn eq(&self, other: &Self) -> (r: bool) {
        let (rows, cols) = self.get_dim();
        let (other_rows, other_cols) = other.get_dim();
        if rows != other_rows || cols != other_cols {
            return false;
        }
        for r in 0..rows
            invariant
                rows == self@.rows,
                cols == self@.cols,
                self@.same_shape(other@),
                T::obeys_eq_spec() ==> forall|i: int, j: int|
                    0 <= i < r && 0 <= j < cols ==> (#[trigger] self@[i][j]).eq_spec(&other@[i][j]),
        {
            for c in 0..cols
                invariant
                    rows == self@.rows,
                    cols == self@.cols,
                    0 <= r < rows,
                    self@.same_shape(other@),
                    T::obeys_eq_spec() ==> forall|i: int, j: int|
                        0 <= i < r && 0 <= j < cols ==> (#[trigger] self@[i][j]).eq_spec(
                            &other@[i][j],
                        ),
                    T::obeys_eq_spec() ==> forall|j: int|
                        0 <= j < c ==> (#[trigger] self@[r as int][j]).eq_spec(
                            &other@[r as int][j],
                        ),
            {
                if self.get(r, c) != other.get(r, c) {
                    return false;
                }
            }
        }
        true
    }
}

impl<T: Scalar> vstd::std_specs::cmp::PartialEqSpecImpl for Matrix<T> {
    open spec fn obeys_eq_spec() -> bool {
        T::obeys_eq_spec()
    }

    open spec fn eq_spec(&self, other: &Self) -> bool {
        self@.entries_equal(other@)
    }
}

/// A copy with storage of its own.
impl<T: Copy> Clone for Matrix<T> {
    fn clone(&self) -> (m: Self)
        ensures
            m@ == self@,
    {
        let m = self.map(
            |x: T| -> (y: T)
                ensures
                    y == x,
                { x }
        );
        proof {
            assert(m@.cells =~~= self@.cells);
        }
        m
    }
}

} // verus!

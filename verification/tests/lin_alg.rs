use numerics::lin_alg::mat::Matrix;
use numerics::lin_alg::{back_substitute, column_norm, householder_step, lin_solve, qr_decomposition};
use numerics::scalar::{constant, is_at_least, Elementary};
use std::ops::{Add, Div, Mul, Neg, Sub};

/// `f64` under a name of this file's own, so that it can be given the
/// library's `Elementary` functions.
#[derive(Clone, Copy, Debug, PartialEq, PartialOrd)]
struct R64(f64);

impl From<i8> for R64 {
    fn from(n: i8) -> Self {
        R64(f64::from(n))
    }
}

impl From<i32> for R64 {
    fn from(n: i32) -> Self {
        R64(f64::from(n))
    }
}

impl Add for R64 {
    type Output = R64;
    fn add(self, rhs: R64) -> R64 {
        R64(self.0 + rhs.0)
    }
}

impl Sub for R64 {
    type Output = R64;
    fn sub(self, rhs: R64) -> R64 {
        R64(self.0 - rhs.0)
    }
}

impl Mul for R64 {
    type Output = R64;
    fn mul(self, rhs: R64) -> R64 {
        R64(self.0 * rhs.0)
    }
}

impl Div for R64 {
    type Output = R64;
    fn div(self, rhs: R64) -> R64 {
        R64(self.0 / rhs.0)
    }
}

impl Neg for R64 {
    type Output = R64;
    fn neg(self) -> R64 {
        R64(-self.0)
    }
}

impl Elementary for R64 {
    fn sqrt(self) -> Self {
        R64(self.0.sqrt())
    }
    fn abs(self) -> Self {
        R64(self.0.abs())
    }
    fn powi(self, n: i32) -> Self {
        R64(self.0.powi(n))
    }
    fn powf(self, n: Self) -> Self {
        R64(self.0.powf(n.0))
    }
    fn sin(self) -> Self {
        R64(self.0.sin())
    }
    fn cos(self) -> Self {
        R64(self.0.cos())
    }
    fn tan(self) -> Self {
        R64(self.0.tan())
    }
    fn asin(self) -> Self {
        R64(self.0.asin())
    }
    fn acos(self) -> Self {
        R64(self.0.acos())
    }
    fn atan(self) -> Self {
        R64(self.0.atan())
    }
    fn exp(self) -> Self {
        R64(self.0.exp())
    }
    fn ln(self) -> Self {
        R64(self.0.ln())
    }
    fn log10(self) -> Self {
        R64(self.0.log10())
    }
    fn ln_10() -> Self {
        R64(std::f64::consts::LN_10)
    }
}

// Helper function to check if all elements of a matrix are below a tolerance
fn matrix_elements_below_tolerance(matrix: &Matrix<R64>, tolerance: f64) -> bool {
    let (rows, cols) = matrix.get_dim();
    for r in 0..rows {
        for c in 0..cols {
            if matrix.get(r, c).0 >= tolerance {
                return false;
            }
        }
    }
    true
}

fn grid(rows: usize, cols: usize, entries: &[f64]) -> Matrix<R64> {
    let mut m: Matrix<R64> = Matrix::new((rows, cols));
    for r in 0..rows {
        for c in 0..cols {
            m.set(r, c, R64(entries[r * cols + c]));
        }
    }
    m
}

fn near(a: &Matrix<R64>, b: &Matrix<R64>, tolerance: f64) -> bool {
    a.get_dim() == b.get_dim() && matrix_elements_below_tolerance(&(a - b).abs(), tolerance)
}

#[test]
fn test_qr_decomposition() {
    let mut a = Matrix::new((3, 3));
    a.set(0, 0, R64(2.0));
    a.set(0, 1, R64(-1.0));
    a.set(0, 2, R64(0.0));
    a.set(1, 0, R64(1.0));
    a.set(1, 1, R64(2.0));
    a.set(1, 2, R64(1.0));
    a.set(2, 0, R64(0.0));
    a.set(2, 1, R64(1.0));
    a.set(2, 2, R64(3.0));

    let (q, r) = qr_decomposition(&a);
    let a_reconstructed: Matrix<R64> = &q * &r;

    // I also happen to know what Q and R shoud be for this example
    let mut q_expected = Matrix::new((3, 3));
    q_expected.set(0, 0, R64(-0.894427190999916));
    q_expected.set(0, 1, R64(0.408248290463863));
    q_expected.set(0, 2, R64(-0.182574185835055));
    q_expected.set(1, 0, R64(-0.447213595499958));
    q_expected.set(1, 1, R64(-0.816496580927726));
    q_expected.set(1, 2, R64(0.365148371670111));
    q_expected.set(2, 0, R64(0.000000000000000));
    q_expected.set(2, 1, R64(-0.408248290463863));
    q_expected.set(2, 2, R64(-0.912870929175277));

    let mut r_expected = Matrix::new((3, 3));
    r_expected.set(0, 0, R64(-2.236067977499790));
    r_expected.set(0, 1, R64(0.000000000000000));
    r_expected.set(0, 2, R64(-0.447213595499958));
    r_expected.set(1, 0, R64(0.000000000000000));
    r_expected.set(1, 1, R64(-2.449489742783178));
    r_expected.set(1, 2, R64(-2.041241452319315));
    r_expected.set(2, 0, R64(0.000000000000000));
    r_expected.set(2, 1, R64(0.000000000000000));
    r_expected.set(2, 2, R64(-2.373464415855720));

    // Check that Q*R reconstructs the matrix A
    // For floating point results, we need tolerance-based comparison
    let reconstruction_error = (&a - &a_reconstructed).abs();
    assert!(matrix_elements_below_tolerance(
        &reconstruction_error,
        1e-10
    ));

    // Note: Due to floating point precision, we can't use exact equality for Q and R
    // so we use matrix operations with tolerance checking
    let q_error = (&q - &q_expected).abs();
    let r_error = (&r - &r_expected).abs();
    assert!(matrix_elements_below_tolerance(&q_error, 1e-10));
    assert!(matrix_elements_below_tolerance(&r_error, 1e-10));
}

#[test]
fn test_solve() {
    let mut a = Matrix::new((3, 3));
    a.set(0, 0, R64(2.0));
    a.set(0, 1, R64(-1.0));
    a.set(0, 2, R64(0.0));
    a.set(1, 0, R64(1.0));
    a.set(1, 1, R64(2.0));
    a.set(1, 2, R64(1.0));
    a.set(2, 0, R64(0.0));
    a.set(2, 1, R64(1.0));
    a.set(2, 2, R64(3.0));

    let mut b = Matrix::new((3, 1));
    b.set(0, 0, R64(1.0));
    b.set(1, 0, R64(4.0));
    b.set(2, 0, R64(2.0));

    let x = lin_solve(&a, &b);

    let mut x_expected = Matrix::new((3, 1));
    x_expected.set(0, 0, R64(1.153846153846154));
    x_expected.set(1, 0, R64(1.307692307692307));
    x_expected.set(2, 0, R64(0.230769230769231));

    // Note: Due to floating point precision, we can't use exact equality
    // so we use matrix operations with tolerance checking
    let solution_error = (&x - &x_expected).abs();
    assert!(matrix_elements_below_tolerance(&solution_error, 1e-10));
}

// Factorisations of other shapes, and what holds of every factorisation

fn check_factorisation(a: &Matrix<R64>) {
    let (rows, cols) = a.get_dim();
    let (q, r) = qr_decomposition(a);
    assert_eq!(q.get_dim(), (rows, rows));
    assert_eq!(r.get_dim(), (rows, cols));
    // Q * R is A
    assert!(near(&(&q * &r), a, 1e-10));
    // Q^t * Q is the identity
    let unit: Matrix<R64> = Matrix::identity(rows);
    assert!(near(&(&q.transpose() * &q), &unit, 1e-10));
    // R is zero below the diagonal
    for i in 0..rows {
        for j in 0..cols {
            if i > j {
                assert!(r.get(i, j).0.abs() < 1e-10);
            }
        }
    }
}

#[test]
fn a_square_matrix_factors() {
    check_factorisation(&grid(3, 3, &[2.0, -1.0, 0.0, 1.0, 2.0, 1.0, 0.0, 1.0, 3.0]));
    check_factorisation(&grid(
        4,
        4,
        &[
            4.0, 1.0, -2.0, 2.0, 1.0, 2.0, 0.0, 1.0, -2.0, 0.0, 3.0, -2.0, 2.0, 1.0, -2.0, -1.0,
        ],
    ));
    check_factorisation(&grid(1, 1, &[-3.0]));
}

#[test]
fn a_tall_matrix_factors() {
    check_factorisation(&grid(3, 2, &[1.0, 2.0, 3.0, 4.0, 5.0, 6.0]));
    check_factorisation(&grid(4, 1, &[1.0, -1.0, 2.0, 0.5]));
}

#[test]
fn a_matrix_without_columns_factors_into_the_identity() {
    let a: Matrix<R64> = Matrix::new((2, 0));
    let (q, r) = qr_decomposition(&a);
    assert!(q == Matrix::identity(2));
    assert_eq!(r.get_dim(), (2, 0));
}

#[test]
fn a_negative_leading_entry_is_reflected_with_the_other_sign() {
    // sign stabilisation: v = rv - |rv| e for a negative first entry
    let a = grid(2, 2, &[-3.0, 1.0, 4.0, 2.0]);
    let (_, r) = qr_decomposition(&a);
    assert!((r.get(0, 0).0 - 5.0).abs() < 1e-10);
    let b = grid(2, 2, &[3.0, 1.0, 4.0, 2.0]);
    let (_, r) = qr_decomposition(&b);
    assert!((r.get(0, 0).0 + 5.0).abs() < 1e-10);
    check_factorisation(&a);
}

#[test]
fn a_zero_column_is_not_detected() {
    // The second column is zero from the diagonal down once the first is
    // reduced: the reflection divides by zero and the call still returns.
    let a = grid(2, 2, &[1.0, 0.0, 0.0, 0.0]);
    let (q, r) = qr_decomposition(&a);
    assert_eq!(q.get_dim(), (2, 2));
    assert_eq!(r.get_dim(), (2, 2));
    assert!(r.get(1, 1).0.is_nan());
    // the step before it is untouched by the division
    assert_eq!(r.get(0, 0).0, -1.0);
    let zero: Matrix<R64> = Matrix::new((3, 2));
    let (_, r) = qr_decomposition(&zero);
    assert_eq!(r.get_dim(), (3, 2));
    assert!(r.get(0, 0).0.is_nan());
}

#[test]
fn one_step_is_one_column_of_the_factorisation() {
    let a = grid(3, 3, &[2.0, -1.0, 0.0, 1.0, 2.0, 1.0, 0.0, 1.0, 3.0]);
    let norm = column_norm(&a, 0);
    assert_eq!(norm.0, 5.0f64.sqrt());
    let unit: Matrix<R64> = Matrix::identity(3);
    let (q1, r1) = householder_step(&unit, &a, 0, norm);
    // the first column is cleared below the diagonal, and Q * R is still A
    assert!((r1.get(0, 0).0 + 5.0f64.sqrt()).abs() < 1e-12);
    assert!(r1.get(1, 0).0.abs() < 1e-12);
    assert!(r1.get(2, 0).0.abs() < 1e-12);
    assert!(near(&(&q1 * &r1), &a, 1e-10));
    let (q2, r2) = householder_step(&q1, &r1, 1, column_norm(&r1, 1));
    let (q3, r3) = householder_step(&q2, &r2, 2, column_norm(&r2, 2));
    let (q, r) = qr_decomposition(&a);
    assert!(q3 == q);
    assert!(r3 == r);
}

#[test]
fn back_substitution_solves_a_triangular_system() {
    // 2x + y - z = 1, 4y + 2z = 10, 5z = 15
    let r = grid(3, 3, &[2.0, 1.0, -1.0, 0.0, 4.0, 2.0, 0.0, 0.0, 5.0]);
    let y = grid(3, 1, &[1.0, 10.0, 15.0]);
    let x = back_substitute(&r, &y);
    assert_eq!(x.get_dim(), (3, 1));
    assert_eq!(x.get(2, 0).0, 3.0);
    assert_eq!(x.get(1, 0).0, 1.0);
    assert_eq!(x.get(0, 0).0, 1.5);
}

#[test]
fn the_product_with_the_solution_is_the_right_hand_side() {
    let a = grid(
        4,
        4,
        &[
            4.0, 1.0, -2.0, 2.0, 1.0, 2.0, 0.0, 1.0, -2.0, 0.0, 3.0, -2.0, 2.0, 1.0, -2.0, -1.0,
        ],
    );
    let b = grid(4, 1, &[1.0, -2.0, 3.0, 0.5]);
    let x = lin_solve(&a, &b);
    assert_eq!(x.get_dim(), (4, 1));
    assert!(near(&(&a * &x), &b, 1e-10));
    let one = grid(1, 1, &[4.0]);
    let rhs = grid(1, 1, &[2.0]);
    assert!((lin_solve(&one, &rhs).get(0, 0).0 - 0.5).abs() < 1e-15);
}

#[test]
fn a_singular_system_gives_no_finite_solution_and_no_failure() {
    let a = grid(2, 2, &[1.0, 2.0, 2.0, 4.0]);
    let b = grid(2, 1, &[1.0, 1.0]);
    let x = lin_solve(&a, &b);
    assert_eq!(x.get_dim(), (2, 1));
    assert!(!x.get(0, 0).0.is_finite() || !x.get(1, 0).0.is_finite() || x.get(0, 0).0.abs() > 1e10);
}

#[test]
fn a_step_is_the_reflection_written_out() {
    // column 0 of A from the diagonal down, its norm, and v = rv + sign * e
    let a = [[2.0f64, -1.0, 0.0], [1.0, 2.0, 1.0], [0.0, 1.0, 3.0]];
    let norm = (0.0 + 2.0 * 2.0 + 1.0 * 1.0 + 0.0 * 0.0f64).sqrt();
    let v = [2.0 + 1.0 * norm, 1.0 + 1.0 * 0.0, 0.0 + 1.0 * 0.0];
    let v_dot = 0.0 + v[0] * v[0] + v[1] * v[1] + v[2] * v[2];
    let scale = 2.0 * (1.0 / v_dot);
    // H = I - scale * (v v^t), and R = H * A with each sum taken from zero
    let mut h = [[0.0f64; 3]; 3];
    for j in 0..3 {
        for k in 0..3 {
            let unit = if j == k { 1.0 } else { 0.0 };
            h[j][k] = unit - scale * (0.0 + v[j] * v[k]);
        }
    }
    let m = grid(3, 3, &[2.0, -1.0, 0.0, 1.0, 2.0, 1.0, 0.0, 1.0, 3.0]);
    let unit: Matrix<R64> = Matrix::identity(3);
    let (q1, r1) = householder_step(&unit, &m, 0, R64(norm));
    for j in 0..3 {
        for k in 0..3 {
            let mut r_jk = 0.0;
            let mut q_jk = 0.0;
            for l in 0..3 {
                r_jk += h[j][l] * a[l][k];
                let unit_jl = if j == l { 1.0 } else { 0.0 };
                q_jk += unit_jl * h[k][l];
            }
            assert_eq!(r1.get(j, k).0, r_jk);
            assert_eq!(q1.get(j, k).0, q_jk);
        }
    }
}

#[test]
fn small_constants_and_comparison() {
    assert_eq!(constant::<f64>(0), 0.0);
    assert_eq!(constant::<f64>(-1), -1.0);
    assert_eq!(constant::<f64>(36), 36.0);
    assert_eq!(constant::<R64>(2).0, 2.0);
    assert!(is_at_least(0.0f64, 0.0));
    assert!(is_at_least(-0.0f64, 0.0));
    assert!(is_at_least(1.5f64, 0.0));
    assert!(!is_at_least(-1.5f64, 0.0));
    assert!(!is_at_least(f64::NAN, 0.0));
}

// Many matrices: entries from a fixed sequence, the diagonal made heavy so
// that the columns are independent

fn sequence(seed: &mut u64) -> f64 {
    *seed = seed.wrapping_mul(6364136223846793005).wrapping_add(1442695040888963407);
    ((*seed >> 11) as f64) / ((1u64 << 53) as f64) * 2.0 - 1.0
}

fn heavy_diagonal(rows: usize, cols: usize, seed: &mut u64) -> Matrix<R64> {
    let mut m: Matrix<R64> = Matrix::new((rows, cols));
    for r in 0..rows {
        for c in 0..cols {
            let x = sequence(seed);
            m.set(r, c, R64(if r == c { x + 4.0 } else { x }));
        }
    }
    m
}

#[test]
fn square_and_tall_matrices_of_many_sizes_factor() {
    let mut seed = 7u64;
    for rows in 1..=6usize {
        for cols in 1..=rows {
            check_factorisation(&heavy_diagonal(rows, cols, &mut seed));
        }
    }
}

#[test]
fn systems_of_many_sizes_are_solved() {
    let mut seed = 11u64;
    for n in 1..=6usize {
        let a = heavy_diagonal(n, n, &mut seed);
        let b = heavy_diagonal(n, 1, &mut seed);
        let x = lin_solve(&a, &b);
        assert_eq!(x.get_dim(), (n, 1));
        assert!(near(&(&a * &x), &b, 1e-10));
    }
}

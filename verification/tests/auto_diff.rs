use numerics::auto_diff::DiffNum;
use numerics::scalar::Elementary;
use std::ops::{Add, Div, Mul, Neg, Sub};

/// `f64` under a name of this file's own, so that it can be given the
/// library's `Elementary` functions.
#[derive(Clone, Copy, Debug, PartialEq, PartialOrd)]
struct R64(f64);

impl From<i8> for R64 {
    fn from(n: i8) -> Self {
        R64(f64::from(n))
    }
}

impl From<i32> for R64 {
    fn from(n: i32) -> Self {
        R64(f64::from(n))
    }
}

impl Add for R64 {
    type Output = R64;
    fn add(self, rhs: R64) -> R64 {
        R64(self.0 + rhs.0)
    }
}

impl Sub for R64 {
    type Output = R64;
    fn sub(self, rhs: R64) -> R64 {
        R64(self.0 - rhs.0)
    }
}

impl Mul for R64 {
    type Output = R64;
    fn mul(self, rhs: R64) -> R64 {
        R64(self.0 * rhs.0)
    }
}

impl Div for R64 {
    type Output = R64;
    fn div(self, rhs: R64) -> R64 {
        R64(self.0 / rhs.0)
    }
}

impl Neg for R64 {
    type Output = R64;
    fn neg(self) -> R64 {
        R64(-self.0)
    }
}

impl Elementary for R64 {
    fn sqrt(self) -> Self {
        R64(self.0.sqrt())
    }
    fn abs(self) -> Self {
        R64(self.0.abs())
    }
    fn powi(self, n: i32) -> Self {
        R64(self.0.powi(n))
    }
    fn powf(self, n: Self) -> Self {
        R64(self.0.powf(n.0))
    }
    fn sin(self) -> Self {
        R64(self.0.sin())
    }
    fn cos(self) -> Self {
        R64(self.0.cos())
    }
    fn tan(self) -> Self {
        R64(self.0.tan())
    }
    fn asin(self) -> Self {
        R64(self.0.asin())
    }
    fn acos(self) -> Self {
        R64(self.0.acos())
    }
    fn atan(self) -> Self {
        R64(self.0.atan())
    }
    fn exp(self) -> Self {
        R64(self.0.exp())
    }
    fn ln(self) -> Self {
        R64(self.0.ln())
    }
    fn log10(self) -> Self {
        R64(self.0.log10())
    }
    fn ln_10() -> Self {
        R64(std::f64::consts::LN_10)
    }
}

// Test Addition for f64, f32
#[test]
fn test_addition_f64() {
    let a: DiffNum<f64> = DiffNum { f: 2.0, df: 1.0 };
    let b: DiffNum<f64> = DiffNum { f: 3.0, df: 4.0 };
    let c: DiffNum<f64> = a + b;
    assert_eq!(c.f, 5.0);
    assert_eq!(c.df, 5.0);
}

#[test]
fn test_addition_f32() {
    let a: DiffNum<f32> = DiffNum { f: 2.0, df: 1.0 };
    let b: DiffNum<f32> = DiffNum { f: 3.0, df: 4.0 };
    let c: DiffNum<f32> = a + b;
    assert_eq!(c.f, 5.0);
    assert_eq!(c.df, 5.0);
}

#[test]
fn test_add_assign_f64() {
    let mut a: DiffNum<f64> = DiffNum { f: 2.0, df: 1.0 };
    let b: DiffNum<f64> = DiffNum { f: 3.0, df: 4.0 };
    for _ in 0..3 {
        a.add_assign(b);
    }
    assert_eq!(a.f, 11.0);
    assert_eq!(a.df, 13.0);
}

#[test]
fn test_add_assign_f32() {
    let mut a: DiffNum<f32> = DiffNum { f: 2.0, df: 1.0 };
    let b: DiffNum<f32> = DiffNum { f: 3.0, df: 4.0 };
    for _ in 0..3 {
        a.add_assign(b);
    }
    assert_eq!(a.f, 11.0);
    assert_eq!(a.df, 13.0);
}

// Test subtraction for f64, f32
#[test]
fn test_subtraction_f64() {
    let a: DiffNum<f64> = DiffNum { f: 5.0, df: 4.0 };
    let b: DiffNum<f64> = DiffNum { f: 3.0, df: 1.0 };
    let c: DiffNum<f64> = a - b;
    assert_eq!(c.f, 2.0);
    assert_eq!(c.df, 3.0);
}

#[test]
fn test_subtraction_f32() {
    let a: DiffNum<f32> = DiffNum { f: 5.0, df: 4.0 };
    let b: DiffNum<f32> = DiffNum { f: 3.0, df: 1.0 };
    let c: DiffNum<f32> = a - b;
    assert_eq!(c.f, 2.0);
    assert_eq!(c.df, 3.0);
}

#[test]
fn test_sub_assign_f64() {
    let mut a: DiffNum<f64> = DiffNum { f: 5.0, df: 4.0 };
    let b: DiffNum<f64> = DiffNum { f: 3.0, df: 1.0 };
    for _ in 0..3 {
        a.sub_assign(b);
    }
    assert_eq!(a.f, -4.0);
    assert_eq!(a.df, 1.0);
}

#[test]
fn test_sub_assign_f32() {
    let mut a: DiffNum<f32> = DiffNum { f: 5.0, df: 4.0 };
    let b: DiffNum<f32> = DiffNum { f: 3.0, df: 1.0 };
    for _ in 0..3 {
        a.sub_assign(b);
    }
    assert_eq!(a.f, -4.0);
    assert_eq!(a.df, 1.0);
}

// Test Multiplication for f64, f32
#[test]
fn test_multiplication_f64() {
    let a: DiffNum<f64> = DiffNum { f: 2.0, df: 1.0 };
    let b: DiffNum<f64> = DiffNum { f: 3.0, df: 4.0 };
    let c: DiffNum<f64> = a * b;
    assert_eq!(c.f, 6.0);
    assert_eq!(c.df, 11.0);
}

#[test]
fn test_multiplication_f32() {
    let a: DiffNum<f32> = DiffNum { f: 2.0, df: 1.0 };
    let b: DiffNum<f32> = DiffNum { f: 3.0, df: 4.0 };
    let c: DiffNum<f32> = a * b;
    assert_eq!(c.f, 6.0);
    assert_eq!(c.df, 11.0);
}

#[test]
fn test_mul_assign_f64() {
    let mut a: DiffNum<f64> = DiffNum { f: 2.0, df: 1.0 };
    let b: DiffNum<f64> = DiffNum { f: 3.0, df: 4.0 };
    for _ in 0..2 {
        a.mul_assign(b);
    }
    assert_eq!(a.f, 18.0);
    assert_eq!(a.df, 57.0);
}

#[test]
fn test_mul_assign_f32() {
    let mut a: DiffNum<f32> = DiffNum { f: 2.0, df: 1.0 };
    let b: DiffNum<f32> = DiffNum { f: 3.0, df: 4.0 };
    for _ in 0..2 {
        a.mul_assign(b);
    }
    assert_eq!(a.f, 18.0);
    assert_eq!(a.df, 57.0);
}

// Test Division for f64, f32
#[test]
fn test_division_f64() {
    let a: DiffNum<f64> = DiffNum { f: 6.0, df: 11.0 };
    let b: DiffNum<f64> = DiffNum { f: 3.0, df: 4.0 };
    let c: DiffNum<f64> = a / b;
    assert_eq!(c.f, 2.0);
    assert_eq!(c.df, (11.0 * 3.0 - 6.0 * 4.0) / (3.0 * 3.0));
}

#[test]
fn test_division_f32() {
    let a: DiffNum<f32> = DiffNum { f: 6.0, df: 11.0 };
    let b: DiffNum<f32> = DiffNum { f: 3.0, df: 4.0 };
    let c: DiffNum<f32> = a / b;
    assert_eq!(c.f, 2.0);
    assert_eq!(c.df, (11.0 * 3.0 - 6.0 * 4.0) / (3.0 * 3.0));
}

#[test]
fn test_div_assign_f64() {
    let mut a: DiffNum<f64> = DiffNum { f: 18.0, df: 49.0 };
    let b: DiffNum<f64> = DiffNum { f: 3.0, df: 4.0 };
    for _ in 0..2 {
        a.div_assign(b);
    }
    assert_eq!(a.f, 2.0);
    assert!((a.df - (1.0 / 9.0)).abs() < 1e-10);
}

#[test]
fn test_div_assign_f32() {
    let mut a: DiffNum<f32> = DiffNum { f: 18.0, df: 49.0 };
    let b: DiffNum<f32> = DiffNum { f: 3.0, df: 4.0 };
    for _ in 0..2 {
        a.div_assign(b);
    }
    assert_eq!(a.f, 2.0);
    assert!((a.df - (1.0 / 9.0)).abs() < 1e-6);
}

// Tests for Negation for f64, f32
#[test]
fn test_negation_f64() {
    let a: DiffNum<f64> = DiffNum { f: 2.0, df: 3.0 };
    let b: DiffNum<f64> = -a;
    assert_eq!(b.f, -2.0);
    assert_eq!(b.df, -3.0);
}

#[test]
fn test_negation_f32() {
    let a: DiffNum<f32> = DiffNum { f: 2.0, df: 3.0 };
    let b: DiffNum<f32> = -a;
    assert_eq!(b.f, -2.0);
    assert_eq!(b.df, -3.0);
}

// Test polynomial differentiation
#[test]
fn test_quadratic_polynomial() {
    // f(x) = x^2 + 2x + 1
    // f'(x) = 2x + 2
    let x: DiffNum<R64> = DiffNum { f: R64(3.0), df: R64(1.0) }; // At x = 3
    let f_x: DiffNum<R64> = x.powi(2) + DiffNum::scalar_mul(R64(2.0), x) + R64(1.0);
    assert_eq!(f_x.f.0, 16.0); // 3^2 + 2*3 + 1 = 16
    assert_eq!(f_x.df.0, 8.0); // f'(3) = 2*3 + 2 = 8
}

#[test]
fn test_2d_quadratic_polynomial() {
    // f(x, y) = x^2 + y^2 + 2xy
    // df/dx = 2x + 2y
    // df/dy = 2y + 2x
    let mut x: DiffNum<R64> = DiffNum { f: R64(2.0), df: R64(1.0) }; // At x = 2
    let mut y: DiffNum<R64> = DiffNum { f: R64(3.0), df: R64(0.0) }; // At y = 3
    let f_dx: DiffNum<R64> = x.powi(2) + y.powi(2) + DiffNum::scalar_mul(R64(2.0), x) * y;
    assert_eq!(f_dx.f.0, 25.0); // 2^2 + 3^2 + 2*2*3 = 25
    assert_eq!(f_dx.df.0, 10.0); // df/dx at (2,3) = 2*2 + 2*3 = 10

    x = DiffNum { f: R64(2.0), df: R64(0.0) }; // At x = 2
    y = DiffNum { f: R64(3.0), df: R64(1.0) }; // At y = 3
    let f_dy: DiffNum<R64> = x.powi(2) + y.powi(2) + DiffNum::scalar_mul(R64(2.0), x) * y;
    assert_eq!(f_dy.f.0, 25.0); // 2^2 + 3^2 + 2*2*3 = 25
    assert_eq!(f_dy.df.0, 10.0); // df/dy at (2,3) = 2*3 + 2*2 = 10
}

// Tests for transcendental functions
#[test]
fn test_trig_funcs() {
    let x: DiffNum<R64> = DiffNum {
        f: R64(std::f64::consts::PI / 4.0),
        df: R64(1.0),
    }; // 45 degrees

    let sin_x = x.sin();
    assert!((sin_x.f.0 - (std::f64::consts::PI / 4.0).sin()).abs() < 1e-10);
    assert!((sin_x.df.0 - (std::f64::consts::PI / 4.0).cos()).abs() < 1e-10);

    let cos_x = x.cos();
    assert!((cos_x.f.0 - (std::f64::consts::PI / 4.0).cos()).abs() < 1e-10);
    assert!((cos_x.df.0 + (std::f64::consts::PI / 4.0).sin()).abs() < 1e-10);

    let tan_x = x.tan();
    assert!((tan_x.f.0 - (std::f64::consts::PI / 4.0).tan()).abs() < 1e-10);
    assert!((tan_x.df.0 - (1.0 / (std::f64::consts::PI / 4.0).cos().powi(2))).abs() < 1e-10);
}

#[test]
fn test_exponential_and_log_funcs() {
    let x: DiffNum<R64> = DiffNum { f: R64(2.0), df: R64(1.0) };

    let exp_x = x.exp();
    assert!((exp_x.f.0 - 2.0f64.exp()).abs() < 1e-10);
    assert!((exp_x.df.0 - 2.0f64.exp()).abs() < 1e-10);

    let ln_x = x.ln();
    assert!((ln_x.f.0 - 2.0f64.ln()).abs() < 1e-10);
    assert!((ln_x.df.0 - (1.0 / 2.0)).abs() < 1e-10);

    let log10_x = x.log10();
    assert!((log10_x.f.0 - 2.0f64.log10()).abs() < 1e-10);
    assert!((log10_x.df.0 - (1.0 / (2.0 * std::f64::consts::LN_10))).abs() < 1e-10);
}

#[test]
fn test_sqrt_func() {
    let x: DiffNum<R64> = DiffNum { f: R64(4.0), df: R64(1.0) };

    let sqrt_x = x.sqrt();
    assert!((sqrt_x.f.0 - 2.0).abs() < 1e-10);
    assert!((sqrt_x.df.0 - 0.25).abs() < 1e-10);
}

#[test]
fn test_powi_func() {
    let x: DiffNum<R64> = DiffNum { f: R64(3.0), df: R64(1.0) };

    let powi_x = x.powi(3);
    assert!((powi_x.f.0 - 27.0).abs() < 1e-10);
    assert!((powi_x.df.0 - 27.0).abs() < 1e-10); // 3 * 3^2 * 1 = 27
}

#[test]
fn test_powf_func() {
    let x: DiffNum<R64> = DiffNum { f: R64(4.0), df: R64(1.0) };

    let powf_x = x.powf(R64(2.5));
    assert!((powf_x.f.0 - 32.0).abs() < 1e-10);
    assert!((powf_x.df.0 - 20.0).abs() < 1e-10); // 2.5 * 4^1.5 * 1 = 20
}

#[test]
fn test_arc_trig_funcs() {
    let x: DiffNum<R64> = DiffNum { f: R64(0.5), df: R64(1.0) };

    let asin_x = x.asin();
    assert!((asin_x.f.0 - 0.5f64.asin()).abs() < 1e-10);
    assert!((asin_x.df.0 - (1.0 / (1.0 - 0.5f64.powi(2)).sqrt())).abs() < 1e-10);

    let acos_x = x.acos();
    assert!((acos_x.f.0 - 0.5f64.acos()).abs() < 1e-10);
    assert!((acos_x.df.0 + (1.0 / (1.0 - 0.5f64.powi(2)).sqrt())).abs() < 1e-10);

    let atan_x = x.atan();
    assert!((atan_x.f.0 - 0.5f64.atan()).abs() < 1e-10);
    assert!((atan_x.df.0 - (1.0 / (1.0 + 0.5f64.powi(2)))).abs() < 1e-10);
}

#[test]
fn test_chain_rule() {
    // f(x) = sin(x^2)
    // f'(x) = cos(x^2) * 2x
    let x: DiffNum<R64> = DiffNum {
        f: R64(std::f64::consts::PI / 4.0),
        df: R64(1.0),
    };
    let f_x: DiffNum<R64> = (x.powi(2)).sin();
    assert!((f_x.f.0 - (std::f64::consts::PI / 4.0).powi(2).sin()).abs() < 1e-10);
    assert!(
        (f_x.df.0
            - (std::f64::consts::PI / 4.0).powi(2).cos() * 2.0 * (std::f64::consts::PI / 4.0))
            .abs()
            < 1e-10
    );
}

#[test]
fn test_chain_rule_multiple_vars() {
    // f(x, y) = exp(x * y)
    // df/dx = y * exp(x * y)
    // df/dy = x * exp(x * y)
    let mut x: DiffNum<R64> = DiffNum { f: R64(1.0), df: R64(1.0) }; // At x = 1
    let mut y: DiffNum<R64> = DiffNum { f: R64(2.0), df: R64(0.0) }; // At y = 2
    let f_dx: DiffNum<R64> = (x * y).exp();
    assert!((f_dx.f.0 - (1.0f64 * 2.0f64).exp()).abs() < 1e-10);
    assert!((f_dx.df.0 - (2.0f64 * (1.0f64 * 2.0f64).exp())).abs() < 1e-10);

    x = DiffNum { f: R64(1.0), df: R64(0.0) }; // At x = 1
    y = DiffNum { f: R64(2.0), df: R64(1.0) }; // At y = 2
    let f_dy: DiffNum<R64> = (x * y).exp();
    assert!((f_dy.f.0 - (1.0f64 * 2.0f64).exp()).abs() < 1e-10);
    assert!((f_dy.df.0 - (1.0f64 * (1.0f64 * 2.0f64).exp())).abs() < 1e-10);
}

// Scalars on either side, comparison and conversion

#[test]
fn scalar_on_the_right_leaves_the_derivative_of_a_sum() {
    let a: DiffNum<f64> = DiffNum { f: 2.0, df: 3.0 };
    let s = a + 10.0;
    assert_eq!((s.f, s.df), (12.0, 3.0));
    let d = a - 10.0;
    assert_eq!((d.f, d.df), (-8.0, 3.0));
    let p = a * 10.0;
    assert_eq!((p.f, p.df), (20.0, 30.0));
    let q = a / 4.0;
    assert_eq!((q.f, q.df), (0.5, 0.75));
}

#[test]
fn scalar_on_the_left_follows_the_rules_of_differentiation() {
    let a: DiffNum<R64> = DiffNum { f: R64(2.0), df: R64(3.0) };
    let s = DiffNum::scalar_add(R64(10.0), a);
    assert_eq!((s.f.0, s.df.0), (12.0, 3.0));
    let d = DiffNum::scalar_sub(R64(10.0), a);
    assert_eq!((d.f.0, d.df.0), (8.0, -3.0));
    let p = DiffNum::scalar_mul(R64(10.0), a);
    assert_eq!((p.f.0, p.df.0), (20.0, 30.0));
    // (c / g)' = -c g' / g^2 = -10 * 3 / 4
    let q = DiffNum::scalar_div(R64(10.0), a);
    assert_eq!((q.f.0, q.df.0), (5.0, -7.5));
}

#[test]
fn equality_reads_both_parts_and_order_reads_the_value() {
    let a: DiffNum<f64> = DiffNum { f: 1.0, df: 2.0 };
    let b: DiffNum<f64> = DiffNum { f: 1.0, df: 5.0 };
    let c: DiffNum<f64> = DiffNum { f: 3.0, df: 0.0 };
    assert!(a == a);
    assert!(a != b);
    assert_eq!(a.partial_cmp(&b), Some(std::cmp::Ordering::Equal));
    assert!(a < c);
    assert!(c > b);
    let nan: DiffNum<f64> = DiffNum { f: f64::NAN, df: 0.0 };
    assert_eq!(nan.partial_cmp(&a), None);
}

#[test]
fn a_constant_has_derivative_zero() {
    let c: DiffNum<f64> = DiffNum::from(7.5);
    assert_eq!((c.f, c.df), (7.5, 0.0));
    let d: DiffNum<f32> = DiffNum::from(2.0f32);
    assert_eq!((d.f, d.df), (2.0f32, 0.0f32));
    let z: DiffNum<f64> = DiffNum::default();
    assert_eq!((z.f, z.df), (0.0, 0.0));
}

#[test]
fn copies_are_independent() {
    let a: DiffNum<f64> = DiffNum { f: 1.0, df: 2.0 };
    let mut b = a;
    b.add_assign(a);
    let c = a.clone();
    assert_eq!((a.f, a.df), (1.0, 2.0));
    assert_eq!((b.f, b.df), (2.0, 4.0));
    assert_eq!((c.f, c.df), (1.0, 2.0));
}

#[test]
fn division_by_zero_gives_infinities_not_a_failure() {
    let a: DiffNum<f64> = DiffNum { f: 1.0, df: 1.0 };
    let z: DiffNum<f64> = DiffNum { f: 0.0, df: 0.0 };
    let q = a / z;
    assert!(q.f.is_infinite());
    assert!(q.df.is_nan() || q.df.is_infinite());
}

#[test]
fn negative_powers_differentiate_too() {
    // (x^-1)' = -x^-2
    let x: DiffNum<R64> = DiffNum { f: R64(2.0), df: R64(1.0) };
    let r = x.powi(-1);
    assert_eq!(r.f.0, 0.5);
    assert_eq!(r.df.0, -0.25);
}

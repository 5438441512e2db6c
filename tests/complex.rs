use numerics::Complex;
use std::collections::HashSet;

#[test]
fn test_complex_arithmetic() {
    let c1 = Complex::new(1, 4);
    let c2 = Complex::new(7, 8);

    // Addition
    let mut c3 = c1 + c2;

    assert_eq!(c3, Complex::new(8, 12));

    c3 += c1;

    assert_eq!(c3, Complex::new(9, 16));

    // Subtraction
    let mut c3 = c1 - c2;

    assert_eq!(c3, Complex::new(-6, -4));

    c3 -= c1;

    assert_eq!(c3, Complex::new(-7, -8));

    // Multiplication
    let mut c3 = c1 * c2;

    assert_eq!(c3, Complex::new(-25, 36));

    c3 *= c1;

    assert_eq!(c3, Complex::new(-169, -64));

    // Division
    let c1 = Complex::new(2.0, 4.0);
    let c2 = Complex::new(6.0, 8.0);

    let mut c3 = c1 / c2;

    assert_eq!(c3, Complex::new(0.44, 0.08));

    c3 /= c1;

    assert_eq!(c3, Complex::new(0.06, -0.08));
}

#[test]
fn test_complex_conjugate() {
    let c = Complex::new(1, 2);
    let d = c.conj();

    assert_eq!(d, Complex::new(1, -2));
}

#[test]
fn from_tuple_matches_new() {
    assert_eq!(Complex::from_tuple((3i64, -5i64)), Complex::new(3i64, -5i64));
    let c = Complex::from_tuple((7i32, 9i32));
    assert_eq!(c.re, 7);
    assert_eq!(c.im, 9);
}

#[test]
fn default_is_zero() {
    let z: Complex<i64> = Complex::default();
    assert_eq!(z, Complex::new(0, 0));
    let f: Complex<f64> = Complex::default();
    assert_eq!(f, Complex::new(0.0, 0.0));
}

#[test]
fn adding_zero_is_identity() {
    let a = Complex::new(-13i64, 42i64);
    assert_eq!(a + Complex::new(0, 0), a);
    let m = Complex::new(i64::MAX, i64::MIN);
    assert_eq!(m + Complex::new(0, 0), m);
}

#[test]
fn addition_and_multiplication_commute() {
    let a = Complex::new(3i64, -7i64);
    let b = Complex::new(-11i64, 5i64);
    assert_eq!(a + b, b + a);
    assert_eq!(a * b, b * a);
    assert_eq!(a * b, Complex::new(2, 92));
}

#[test]
fn addition_and_multiplication_associate() {
    let a = Complex::new(2i64, 3i64);
    let b = Complex::new(-4i64, 5i64);
    let c = Complex::new(6i64, -1i64);
    assert_eq!((a + b) + c, a + (b + c));
    assert_eq!((a + b) + c, Complex::new(4, 7));
    assert_eq!((a * b) * c, a * (b * c));
    assert_eq!((a * b) * c, Complex::new(-140, 11));
}

#[test]
fn in_place_forms_match_binary_forms() {
    let a = Complex::new(5i64, -2i64);
    let b = Complex::new(-3i64, 4i64);

    let mut x = a;
    x += b;
    assert_eq!(x, a + b);

    let mut x = a;
    x -= b;
    assert_eq!(x, a - b);
    assert_eq!(x, Complex::new(8, -6));

    let mut x = a;
    x *= b;
    assert_eq!(x, a * b);

    let mut x = a;
    x /= b;
    assert_eq!(x, a / b);
}

#[test]
fn conjugate_twice_is_identity() {
    let a = Complex::new(-8i64, 15i64);
    assert_eq!(a.conj(), Complex::new(-8, -15));
    assert_eq!(a.conj().conj(), a);
    let z = Complex::new(4i32, 0i32);
    assert_eq!(z.conj().conj(), z);
}

#[test]
fn exact_integer_division_inverts_multiplication() {
    let b = Complex::new(1i64, 2i64);
    let a = Complex::new(4i64, -3i64) * b;
    assert_eq!(a, Complex::new(10, 5));
    let q = a / b;
    assert_eq!(q, Complex::new(4, -3));
    assert_eq!(q * b, a);
}

#[test]
fn integer_division_truncates_each_part() {
    // (7 + 3i) / (2 + 1i): numerator 17 + (-1)i, squared modulus 5.
    let q = Complex::new(7i32, 3i32) / Complex::new(2i32, 1i32);
    assert_eq!(q, Complex::new(3, 0));
    let q = Complex::new(-9i64, 0i64) / Complex::new(2i64, 0i64);
    assert_eq!(q, Complex::new(-4, 0));
}

#[test]
fn division_by_real_scalar_divides_components() {
    // Unsigned scalars have no negation, so the values are written as literals.
    let q = Complex { re: 12u32, im: 30u32 } / Complex { re: 3u32, im: 0u32 };
    assert_eq!(q, Complex { re: 4, im: 10 });
}

#[test]
fn floating_division_by_zero_is_not_finite() {
    let q = Complex::new(1.0f64, 1.0f64) / Complex::new(0.0f64, 0.0f64);
    assert!(!q.re.is_finite());
    assert!(!q.im.is_finite());
}

#[test]
fn equal_values_hash_alike() {
    let mut set = HashSet::new();
    set.insert(Complex::new(1i64, 2i64));
    set.insert(Complex::new(1i64, 2i64));
    set.insert(Complex::new(2i64, 1i64));
    assert_eq!(set.len(), 2);
    assert!(set.contains(&(Complex::new(0i64, 2i64) + Complex::new(1i64, 0i64))));
}

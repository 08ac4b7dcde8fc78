use complex::Complex;

#[test]
fn constructor_keeps_both_parts() {
    let z = Complex::new(3i64, 4i64);
    assert_eq!(z.re, 3);
    assert_eq!(z.im, 4);
}

#[test]
fn constructor_f32() {
    assert_eq!(Complex::new(3f32, 4f32), Complex::<f32>::i() * 4f32 + 3f32);
}

#[test]
fn constructor_f64() {
    assert_eq!(Complex::new(3f64, 4f64), Complex::<f64>::i() * 4f64 + 3f64);
}

#[test]
fn constructor_i64() {
    assert_eq!(Complex::new(3i64, 4i64), Complex::<i64>::i() * 4i64 + 3i64);
}

#[test]
fn identities_have_their_parts() {
    assert_eq!(Complex::<i64>::zero(), Complex::new(0, 0));
    assert_eq!(Complex::<i64>::one(), Complex::new(1, 0));
    assert_eq!(Complex::<i64>::i(), Complex::new(0, 1));
    assert_eq!(Complex::<f64>::zero(), Complex::new(0.0, 0.0));
    assert_eq!(Complex::<f64>::one(), Complex::new(1.0, 0.0));
    assert_eq!(Complex::<f32>::i(), Complex::new(0.0, 1.0));
}

#[test]
fn addition_is_by_parts() {
    let a = Complex::new(1i64, 2);
    let b = Complex::new(30i64, 40);
    assert_eq!(a + b, Complex::new(31, 42));
    assert_eq!(Complex::new(1.5f64, -2.0) + Complex::new(0.25, 4.0), Complex::new(1.75, 2.0));
}

#[test]
fn scalar_addition_commutes() {
    let a = Complex::new(2i64, 3);
    assert_eq!(a + 5, Complex::new(7, 3));
    assert_eq!(Complex::scalar_add(5, a), a + 5);
    let b = Complex::new(2.5f64, -3.0);
    assert_eq!(Complex::scalar_add(0.5, b), b + 0.5);
    assert_eq!(Complex::scalar_add(0.5, b), Complex::new(3.0, -3.0));
}

#[test]
fn subtraction_is_by_parts() {
    assert_eq!(Complex::new(10i64, 20) - Complex::new(1, 30), Complex::new(9, -10));
}

#[test]
fn scalar_subtraction_is_not_mirrored() {
    assert_eq!(Complex::scalar_sub(5i64, Complex::new(2, 3)), Complex::new(3, -3));
    assert_eq!(Complex::new(2i64, 3) - 5, Complex::new(-3, 3));
    assert_eq!(Complex::scalar_sub(5f64, Complex::new(2.0, 3.0)), Complex::new(3.0, -3.0));
    assert_eq!(Complex::new(2f64, 3.0) - 5.0, Complex::new(-3.0, 3.0));
}

#[test]
fn multiplication_follows_the_formula() {
    assert_eq!(Complex::new(1i64, 2) * Complex::new(3, 4), Complex::new(-5, 10));
    assert_eq!(Complex::new(1f64, 2.0) * Complex::new(3.0, 4.0), Complex::new(-5.0, 10.0));
    let i = Complex::<i64>::i();
    assert_eq!(i * i, Complex::new(-1, 0));
}

#[test]
fn scalar_multiplication_scales_both_parts() {
    let a = Complex::new(2i64, -3);
    assert_eq!(a * 4, Complex::new(8, -12));
    assert_eq!(Complex::scalar_mul(4, a), a * 4);
    assert_eq!(Complex::scalar_mul(0.5f64, Complex::new(2.0, -3.0)), Complex::new(1.0, -1.5));
}

#[test]
fn division_follows_the_formula() {
    assert_eq!(Complex::new(-5i64, 10) / Complex::new(3, 4), Complex::new(1, 2));
    assert_eq!(Complex::new(-5f64, 10.0) / Complex::new(3.0, 4.0), Complex::new(1.0, 2.0));
}

#[test]
fn division_by_a_scalar_divides_both_parts() {
    assert_eq!(Complex::new(6i64, 8) / 2, Complex::new(3, 4));
    assert_eq!(Complex::new(1f64, -3.0) / 2.0, Complex::new(0.5, -1.5));
}

#[test]
fn scalar_divided_by_complex() {
    assert_eq!(Complex::scalar_div(50i64, Complex::new(3, 4)), Complex::new(6, -8));
    assert_eq!(Complex::scalar_div(12.5f64, Complex::new(3.0, 4.0)), Complex::new(1.5, -2.0));
}

#[test]
fn division_by_zero_gives_no_number() {
    let q = Complex::new(1f64, 1.0) / Complex::new(0.0, 0.0);
    assert!(q.re.is_infinite() || q.re.is_nan());
    assert!(q.im.is_infinite() || q.im.is_nan());
    let r = Complex::new(0f64, 0.0) / Complex::new(0.0, 0.0);
    assert!(r.re.is_nan());
    assert!(r.im.is_nan());
    let s = Complex::new(1f64, -1.0) / 0.0;
    assert_eq!(s.re, f64::INFINITY);
    assert_eq!(s.im, f64::NEG_INFINITY);
}

#[test]
fn negation_negates_both_parts() {
    assert_eq!(-Complex::new(3i64, -4), Complex::new(-3, 4));
}

#[test]
fn negation_is_an_involution() {
    let z = Complex::new(7i64, -11);
    assert_eq!(-(-z), z);
    let w = Complex::new(0.5f64, -2.25);
    assert_eq!(-(-w), w);
}

#[test]
fn one_and_zero_are_identities() {
    let z = Complex::new(7i64, -11);
    assert_eq!(Complex::<i64>::one() * z, z);
    assert_eq!(z + Complex::<i64>::zero(), z);
    let w = Complex::new(0.5f64, -2.25);
    assert_eq!(Complex::<f64>::one() * w, w);
    assert_eq!(w + Complex::<f64>::zero(), w);
}

#[test]
fn squared_norm_of_three_four() {
    assert_eq!(Complex::new(3i64, 4).norm_sqr(), 25);
    assert_eq!(Complex::new(3f64, 4.0).norm_sqr(), 25.0);
    assert_eq!(Complex::new(3f32, 4.0).norm_sqr(), 25.0);
}

#[test]
fn conjugate_flips_the_imaginary_part() {
    assert_eq!(Complex::new(3i64, 4).conj(), Complex::new(3, -4));
    assert_eq!(Complex::new(3f64, -4.0).conj(), Complex::new(3.0, 4.0));
}

#[test]
fn equality_compares_both_parts() {
    assert!(Complex::new(1i64, 2) == Complex::new(1, 2));
    assert!(Complex::new(1i64, 2) != Complex::new(1, 3));
    assert!(Complex::new(1i64, 2) != Complex::new(0, 2));
    assert!(Complex::new(f64::NAN, 0.0) != Complex::new(f64::NAN, 0.0));
}

#[test]
fn integer_division_undoes_multiplication() {
    let a = Complex::new(7i64, -3);
    let b = Complex::new(2i64, 5);
    assert_eq!((a * b) / b, a);
    let c = Complex::new(-4i64, 9);
    let d = Complex::new(0i64, -1);
    assert_eq!((c * d) / d, c);
}

#[test]
fn integer_division_rounds_toward_zero() {
    assert_eq!(Complex::new(7i64, 3) / Complex::new(2, 1), Complex::new(3, 0));
    assert_eq!(Complex::new(-7i64, 0) / Complex::new(2, 0), Complex::new(-3, 0));
    assert_eq!(Complex::new(1i64, 0) / Complex::new(2, 0), Complex::new(0, 0));
}

#[test]
fn integer_multiplication_nearly_undoes_division() {
    let a = Complex::new(7i64, 3);
    let b = Complex::new(2i64, 1);
    let back = (a / b) * b;
    assert_eq!(back, Complex::new(6, 3));
    assert!((back.re - a.re).abs() < b.re.abs() + b.im.abs());
    assert!((back.im - a.im).abs() < b.re.abs() + b.im.abs());
    let c = Complex::new(-100i64, 37);
    let d = Complex::new(-3i64, 8);
    let back = (c / d) * d;
    assert!((back.re - c.re).abs() < d.re.abs() + d.im.abs());
    assert!((back.im - c.im).abs() < d.re.abs() + d.im.abs());
    let e = Complex::new(5i64, 5);
    let f = Complex::new(1i64, 2);
    assert_eq!((e / f) * f, e);
}

#[test]
fn identities_hold_at_every_width() {
    let a = Complex::new(-7i16, 11);
    assert_eq!(Complex::<i16>::one() * a, a);
    assert_eq!(a + Complex::<i16>::zero(), a);
    assert_eq!(-(-a), a);
    let b = Complex::new(i32::MAX, i32::MIN);
    assert_eq!(Complex::<i32>::one() * b, b);
    assert_eq!(b + Complex::<i32>::zero(), b);
    let c = Complex::new(i128::MIN, i128::MAX);
    assert_eq!(Complex::<i128>::one() * c, c);
    assert_eq!(c + Complex::<i128>::zero(), c);
    let d = Complex::new(i64::MAX, -i64::MAX);
    assert_eq!(-(-d), d);
    assert_eq!(Complex::<isize>::i() * 4isize + 3isize, Complex::new(3isize, 4));
}

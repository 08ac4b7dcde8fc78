use complex::text::render;
use complex::Complex;

#[test]
fn positive_imaginary_part_gets_a_plus() {
    assert_eq!(Complex::new(1i64, 1).to_text(), "1+1i");
    assert_eq!(Complex::new(1f64, 1.0).to_text(), "1+1i");
    assert_eq!(Complex::new(3i32, 4).to_text(), "3+4i");
}

#[test]
fn negative_imaginary_part_gets_a_minus() {
    assert_eq!(Complex::new(1i64, -1).to_text(), "1-1i");
    assert_eq!(Complex::new(1f64, -1.0).to_text(), "1-1i");
    assert_eq!(Complex::new(3i32, -4).to_text(), "3-4i");
}

#[test]
fn negative_real_part_keeps_its_sign() {
    assert_eq!(Complex::new(-3i64, -4).to_text(), "-3-4i");
    assert_eq!(Complex::new(-1.5f64, 2.25).to_text(), "-1.5+2.25i");
}

#[test]
fn zero_imaginary_part_gets_a_plus() {
    assert_eq!(Complex::new(2i64, 0).to_text(), "2+0i");
    assert_eq!(Complex::<i64>::zero().to_text(), "0+0i");
}

#[test]
fn sign_comes_from_comparison_with_zero() {
    assert_eq!(Complex::new(1f64, -0.0).to_text(), "1+-0i");
    assert_eq!(Complex::new(1f64, f64::NEG_INFINITY).to_text(), "1-infi");
}

#[test]
fn least_integer_renders() {
    assert_eq!(Complex::new(0i64, i64::MIN).to_text(), "0-9223372036854775808i");
}

#[test]
fn render_assembles_the_parts() {
    assert_eq!(render("3", "4", false), "3+4i");
    assert_eq!(render("3", "-4", true), "3-4i");
    assert_eq!(render("3", "4", true), "3-4i");
    assert_eq!(render("3", "-4", false), "3+-4i");
    assert_eq!(render("", "", false), "+i");
    assert_eq!(render("", "", true), "-i");
    assert_eq!(render("x", "-", true), "x-i");
    assert_eq!(render("é", "-ü", true), "é-üi");
}

//! Laws of the arithmetic, proved for the 64-bit integer scalar, whose
//! operators are exact wherever they are defined. Those that rest only on
//! the scalar's zero, one and negation are instances of the laws that the
//! module `algebra` proves for every such scalar.
//!
//! That a scalar may stand on either side of `+` and `·` is stated where the
//! functions are: `scalar_add` and `scalar_mul` return what the operators
//! return with the operands exchanged.

use crate::algebra::{
    lemma_integers_are_rings, lemma_negation_is_involution, lemma_one_is_neutral,
    lemma_parts_from_unit, lemma_zero_is_neutral,
};
use crate::number::Complex;
use crate::tolerance::distance;
use vstd::prelude::*;
use vstd::std_specs::convert::FromSpec;
use vstd::std_specs::ops::{AddSpec, DivSpec, MulSpec, NegSpec, SubSpec};

verus! {

/// The sum of two complex numbers is formed part by part: wherever it is
/// defined, its real part is the sum of the real parts and its imaginary part
/// the sum of the imaginary parts.
pub proof fn lemma_add_by_parts(a: Complex<i64>, b: Complex<i64>)
    requires
        a.add_req(b),
    ensures
        a.add_spec(b).re == a.re + b.re,
        a.add_spec(b).im == a.im + b.im,
{
}

/// The difference of two complex numbers is formed part by part, wherever it
/// is defined.
pub proof fn lemma_sub_by_parts(a: Complex<i64>, b: Complex<i64>)
    requires
        a.sub_req(b),
    ensures
        a.sub_spec(b).re == a.re - b.re,
        a.sub_spec(b).im == a.im - b.im,
{
}

/// The product of two complex numbers, wherever it is defined, has the real
/// part `a.re·b.re − a.im·b.im` and the imaginary part `a.re·b.im + a.im·b.re`.
pub proof fn lemma_mul_by_parts(a: Complex<i64>, b: Complex<i64>)
    requires
        a.mul_req(b),
    ensures
        a.mul_spec(b).re == a.re * b.re - a.im * b.im,
        a.mul_spec(b).im == a.re * b.im + a.im * b.re,
{
}

/// The squared norm, wherever it is defined, is `re² + im²`, and so is never
/// negative.
pub proof fn lemma_norm_sqr_value(z: Complex<i64>)
    requires
        z.norm_sqr_req(),
    ensures
        z.norm_sqr_spec() == z.re * z.re + z.im * z.im,
        z.norm_sqr_spec() >= 0,
{
    assert(z.re * z.re >= 0) by (nonlinear_arith);
    assert(z.im * z.im >= 0) by (nonlinear_arith);
}

/// Adding a scalar to a complex number adds it to the real part and leaves
/// the imaginary part alone, wherever the sum is defined.
pub proof fn lemma_add_scalar(a: Complex<i64>, s: i64)
    requires
        a.add_req(s),
    ensures
        a.add_spec(s).re == a.re + s,
        a.add_spec(s).im == a.im,
{
}

/// One is a left identity of multiplication: `one · z` is defined for every
/// `z`, and equals `z`.
pub proof fn lemma_one_mul(z: Complex<i64>)
    ensures
        Complex::<i64>::one_spec().mul_req(z),
        Complex::<i64>::one_spec().mul_spec(z) == z,
{
    lemma_integers_are_rings();
    lemma_one_is_neutral(z);
}

/// Zero is a right identity of addition: `z + zero` is defined for every
/// `z`, and equals `z`.
pub proof fn lemma_add_zero(z: Complex<i64>)
    ensures
        z.add_req(Complex::<i64>::zero_spec()),
        z.add_spec(Complex::<i64>::zero_spec()) == z,
{
    lemma_integers_are_rings();
    lemma_zero_is_neutral(z);
}

/// Negation is an involution: wherever `−z` is defined, so is `−(−z)`, and
/// it equals `z`.
pub proof fn lemma_neg_involution(z: Complex<i64>)
    requires
        z.neg_req(),
    ensures
        z.neg_spec().neg_req(),
        z.neg_spec().neg_spec() == z,
{
    lemma_integers_are_rings();
    lemma_negation_is_involution(z);
}

/// The imaginary unit times a scalar plus a scalar is the complex number
/// with those two parts: `i · b + a == (a, b)` for every `a` and `b`.
pub proof fn lemma_from_parts(a: i64, b: i64)
    ensures
        Complex::<i64>::i_spec().mul_req(b),
        Complex::<i64>::i_spec().mul_spec(b).add_req(a),
        Complex::<i64>::i_spec().mul_spec(b).add_spec(a) == (Complex { re: a, im: b }),
{
    lemma_integers_are_rings();
    lemma_parts_from_unit(a, b);
}

/// Subtracting a complex number from a scalar is not the mirror image of
/// subtracting the scalar from it: where both are defined, the real parts are
/// opposite, and the imaginary part of the first is the negation of that of
/// the second.
pub proof fn lemma_scalar_sub_mirrors(s: i64, z: Complex<i64>)
    requires
        Complex::<i64>::scalar_sub_req(s, z),
        z.sub_req(s),
    ensures
        Complex::<i64>::scalar_sub_spec(s, z).re == -z.sub_spec(s).re,
        Complex::<i64>::scalar_sub_spec(s, z).im == -z.sub_spec(s).im,
{
}

/// Division undoes multiplication: wherever the product `a · b` and its
/// quotient by `b` are both defined, that quotient is `a` again.
pub proof fn lemma_div_undoes_mul(a: Complex<i64>, b: Complex<i64>)
    requires
        a.mul_req(b),
        a.mul_spec(b).div_req(b),
    ensures
        a.mul_spec(b).div_spec(b) == a,
{
    let d: int = b.re * b.re + b.im * b.im;
    let p = a.mul_spec(b);
    assert(b.norm_sqr_spec() == d);
    assert(d > 0) by (nonlinear_arith)
        requires
            d == b.re * b.re + b.im * b.im,
            d != 0,
    ;
    assert(p.re == a.re * b.re - a.im * b.im);
    assert(p.im == a.re * b.im + a.im * b.re);
    assert(p.re * b.re + p.im * b.im == a.re * d) by (nonlinear_arith)
        requires
            p.re == a.re * b.re - a.im * b.im,
            p.im == a.re * b.im + a.im * b.re,
            d == b.re * b.re + b.im * b.im,
    ;
    assert(p.im * b.re - p.re * b.im == a.im * d) by (nonlinear_arith)
        requires
            p.re == a.re * b.re - a.im * b.im,
            p.im == a.re * b.im + a.im * b.re,
            d == b.re * b.re + b.im * b.im,
    ;
    lemma_scaled_quotient(a.re as int, d);
    lemma_scaled_quotient(a.im as int, d);
}

/// For a positive `d`, the product `x · d` divided by `d`, rounding toward
/// zero, is `x`.
proof fn lemma_scaled_quotient(x: int, d: int)
    requires
        d > 0,
    ensures
        x >= 0 ==> (x * d) / d == x,
        x < 0 ==> -((-(x * d)) / d) == x,
        x >= 0 <==> x * d >= 0,
{
    assert(x >= 0 ==> (x * d) / d == x) by (nonlinear_arith)
        requires
            d > 0,
    ;
    assert(x < 0 ==> (-(x * d)) / d == -x) by (nonlinear_arith)
        requires
            d > 0,
    ;
    assert(x >= 0 <==> x * d >= 0) by (nonlinear_arith)
        requires
            d > 0,
    ;
}

/// Multiplication nearly undoes division: wherever the quotient `a / b` and
/// its product with `b` are both defined, each part of that product is
/// nearer to the same part of `a` than `|b.re| + |b.im|`. Division rounds each
/// part of the quotient toward zero, and this is what the rounding can cost.
pub proof fn lemma_mul_nearly_undoes_div(a: Complex<i64>, b: Complex<i64>)
    requires
        a.div_req(b),
        a.div_spec(b).mul_req(b),
    ensures
        distance(a.div_spec(b).mul_spec(b).re as int, a.re as int) < distance(b.re as int, 0)
            + distance(b.im as int, 0),
        distance(a.div_spec(b).mul_spec(b).im as int, a.im as int) < distance(b.re as int, 0)
            + distance(b.im as int, 0),
{
    let d: int = b.re * b.re + b.im * b.im;
    let n1: int = a.re * b.re + a.im * b.im;
    let n2: int = a.im * b.re - a.re * b.im;
    let q = a.div_spec(b);
    assert(b.norm_sqr_spec() == d);
    assert(d > 0) by (nonlinear_arith)
        requires
            d == b.re * b.re + b.im * b.im,
            d != 0,
    ;
    lemma_rounded_quotient(n1, d);
    lemma_rounded_quotient(n2, d);
    assert(q.re == rounded_quotient(n1, d));
    assert(q.im == rounded_quotient(n2, d));
    lemma_round_trip(
        a.re as int,
        a.im as int,
        b.re as int,
        b.im as int,
        q.re as int,
        q.im as int,
        d,
    );
}

/// The quotient of `n` by a positive `d`, rounded toward zero.
spec fn rounded_quotient(n: int, d: int) -> int {
    if n >= 0 {
        n / d
    } else {
        -((-n) / d)
    }
}

/// Rounding toward zero leaves a remainder smaller in magnitude than the
/// divisor, and a quotient no larger in magnitude than the dividend.
proof fn lemma_rounded_quotient(n: int, d: int)
    requires
        d > 0,
    ensures
        -d < n - rounded_quotient(n, d) * d < d,
        n >= 0 ==> 0 <= rounded_quotient(n, d) <= n,
        n < 0 ==> n <= rounded_quotient(n, d) <= 0,
{
    assert(n >= 0 ==> 0 <= n - (n / d) * d < d && 0 <= n / d <= n) by (nonlinear_arith)
        requires
            d > 0,
    ;
    assert(n < 0 ==> 0 <= (-n) - ((-n) / d) * d < d && 0 <= (-n) / d <= -n) by (nonlinear_arith)
        requires
            d > 0,
    ;
    assert(n < 0 ==> (-((-n) / d)) * d == -(((-n) / d) * d)) by (nonlinear_arith);
}

/// The heart of `lemma_mul_nearly_undoes_div`, over the integers: `(x, y)` is
/// the dividend, `(u, v)` the divisor with squared norm `d`, and `(q1, q2)` a
/// quotient whose parts leave remainders smaller in magnitude than `d`.
proof fn lemma_round_trip(x: int, y: int, u: int, v: int, q1: int, q2: int, d: int)
    requires
        d == u * u + v * v,
        d > 0,
        -d < (x * u + y * v) - q1 * d < d,
        -d < (y * u - x * v) - q2 * d < d,
    ensures
        distance(q1 * u - q2 * v, x) < distance(u, 0) + distance(v, 0),
        distance(q1 * v + q2 * u, y) < distance(u, 0) + distance(v, 0),
{
    let r1 = (x * u + y * v) - q1 * d;
    let r2 = (y * u - x * v) - q2 * d;
    let bound = distance(u, 0) + distance(v, 0);
    assert(bound >= 1) by (nonlinear_arith)
        requires
            d == u * u + v * v,
            d > 0,
            bound == distance(u, 0) + distance(v, 0),
    ;
    assert(d * ((q1 * u - q2 * v) - x) == r2 * v - r1 * u) by {
        let s1 = q1 * d;
        let s2 = q2 * d;
        assert(d * ((q1 * u - q2 * v) - x) == s1 * u - s2 * v - x * d) by (nonlinear_arith)
            requires
                s1 == q1 * d,
                s2 == q2 * d,
        ;
        assert(s1 * u == x * u * u + y * v * u - r1 * u) by (nonlinear_arith)
            requires
                s1 == x * u + y * v - r1,
        ;
        assert(s2 * v == y * u * v - x * v * v - r2 * v) by (nonlinear_arith)
            requires
                s2 == y * u - x * v - r2,
        ;
        assert(x * d == x * u * u + x * v * v) by (nonlinear_arith)
            requires
                d == u * u + v * v,
        ;
        assert(y * v * u == y * u * v) by (nonlinear_arith);
    }
    assert(d * ((q1 * v + q2 * u) - y) == -(r1 * v) - r2 * u) by {
        let s1 = q1 * d;
        let s2 = q2 * d;
        assert(d * ((q1 * v + q2 * u) - y) == s1 * v + s2 * u - y * d) by (nonlinear_arith)
            requires
                s1 == q1 * d,
                s2 == q2 * d,
        ;
        assert(s1 * v == x * u * v + y * v * v - r1 * v) by (nonlinear_arith)
            requires
                s1 == x * u + y * v - r1,
        ;
        assert(s2 * u == y * u * u - x * v * u - r2 * u) by (nonlinear_arith)
            requires
                s2 == y * u - x * v - r2,
        ;
        assert(y * d == y * u * u + y * v * v) by (nonlinear_arith)
            requires
                d == u * u + v * v,
        ;
        assert(x * u * v == x * v * u) by (nonlinear_arith);
    }
    lemma_product_bound(r1, u, d);
    lemma_product_bound(r1, v, d);
    lemma_product_bound(r2, u, d);
    lemma_product_bound(r2, v, d);
    assert((d - 1) * distance(u, 0) + (d - 1) * distance(v, 0) == (d - 1) * bound)
        by (nonlinear_arith)
        requires
            bound == distance(u, 0) + distance(v, 0),
    ;
    lemma_scaled_bound((q1 * u - q2 * v) - x, d, bound, r2 * v - r1 * u);
    lemma_scaled_bound((q1 * v + q2 * u) - y, d, bound, -(r1 * v) - r2 * u);
}

/// A product of a factor smaller in magnitude than `d` is at most `d − 1`
/// times the magnitude of the other factor.
proof fn lemma_product_bound(r: int, v: int, d: int)
    requires
        -d < r < d,
    ensures
        -((d - 1) * distance(v, 0)) <= r * v <= (d - 1) * distance(v, 0),
{
    let m = distance(v, 0);
    assert(-((d - 1) * m) <= r * v <= (d - 1) * m) by (nonlinear_arith)
        requires
            -d < r < d,
            m >= 0,
            v == m || v == -m,
    ;
}

/// If `d` times `e` is at most `d − 1` times a positive bound in magnitude,
/// then `e` is below that bound in magnitude.
proof fn lemma_scaled_bound(e: int, d: int, bound: int, t: int)
    requires
        d > 0,
        bound >= 1,
        d * e == t,
        -((d - 1) * bound) <= t <= (d - 1) * bound,
    ensures
        distance(e, 0) < bound,
        -bound < e < bound,
{
    assert(-bound < e < bound) by (nonlinear_arith)
        requires
            d > 0,
            bound >= 1,
            -((d - 1) * bound) <= d * e <= (d - 1) * bound,
    ;
}

} // verus!

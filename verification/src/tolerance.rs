//! Approximate equality of complex numbers, part by part.
//!
//! Two complex numbers are close under a tolerance when their real parts are
//! close under it and their imaginary parts are close under it. The tolerance
//! is a test on two scalars: an absolute one, a relative one, or one that
//! counts representable steps.

use crate::number::Complex;
use approx::AbsDiffEq;
use vstd::prelude::*;

verus! {

/// The distance between two integers.
pub open spec fn distance(a: int, b: int) -> int {
    if a >= b {
        a - b
    } else {
        b - a
    }
}

/// Holds when the difference `a − b` and its magnitude are values of `i64`.
pub open spec fn difference_fits(a: i64, b: i64) -> bool {
    i64::MIN < a - b <= i64::MAX
}

/// Asks `approx::AbsDiffEq::abs_diff_eq`, as `approx` implements it for
/// `i64`, whether `a` and `b` differ by at most `epsilon`. There the
/// difference `a − b` is formed in `i64` and its absolute value is compared
/// with `epsilon`, so the difference and its magnitude must be values of
/// `i64`; the answer is then whether the distance is at most `epsilon`.
#[verifier::external_body]
fn scalar_abs_diff_eq(a: i64, b: i64, epsilon: i64) -> (close: bool)
    requires
        difference_fits(a, b),
    ensures
        close == (distance(a as int, b as int) <= epsilon),
{
    a.abs_diff_eq(&b, epsilon)
}

impl<T> Complex<T> {
    /// Tells whether `self` is close to `other` under the tolerance
    /// `scalar_close`: whether the real parts are close under it and the
    /// imaginary parts are close under it.
    pub fn approx_eq_by<F: Fn(&T, &T) -> bool>(&self, other: &Complex<T>, scalar_close: F) -> (close:
        bool)
        requires
            scalar_close.requires((&self.re, &other.re)),
            scalar_close.requires((&self.im, &other.im)),
        ensures
            exists|re_close: bool, im_close: bool|
                {
                    &&& scalar_close.ensures((&self.re, &other.re), re_close)
                    &&& scalar_close.ensures((&self.im, &other.im), im_close)
                    &&& close == (re_close && im_close)
                },
    {
        let re_close = scalar_close(&self.re, &other.re);
        let im_close = scalar_close(&self.im, &other.im);
        re_close && im_close
    }
}

impl Complex<i64> {
    /// Holds when each part of `self` is within `epsilon` of the same part of
    /// `other`.
    pub open spec fn within(self, other: Complex<i64>, epsilon: i64) -> bool {
        &&& distance(self.re as int, other.re as int) <= epsilon
        &&& distance(self.im as int, other.im as int) <= epsilon
    }

    /// Tells whether each part of `self` differs from the same part of
    /// `other` by at most `epsilon`. The imaginary parts are compared only
    /// where the real parts are that close.
    pub fn abs_diff_eq(&self, other: &Complex<i64>, epsilon: i64) -> (close: bool)
        requires
            difference_fits(self.re, other.re),
            distance(self.re as int, other.re as int) <= epsilon ==> difference_fits(
                self.im,
                other.im,
            ),
        ensures
            close == self.within(*other, epsilon),
    {
        scalar_abs_diff_eq(self.re, other.re, epsilon) && scalar_abs_diff_eq(
            self.im,
            other.im,
            epsilon,
        )
    }
}

} // verus!

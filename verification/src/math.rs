//! The surface of the transcendental operations on complex numbers.

use vstd::prelude::*;

verus! {

/// Mathematical operations on complex numbers.
///
/// The library states nothing of what an implementation returns: the
/// operations belong to whichever mathematical library stands behind it.
pub trait Math: Sized {
    /// The type of the real and imaginary parts.
    type Ty;

    /// Computes the complex absolute value (also called norm, modulus or magnitude).
    fn abs(self) -> Self::Ty;

    /// Computes the arc cosine.
    fn acos(self) -> Self;

    /// Computes the arc hyperbolic cosine.
    fn acosh(self) -> Self;

    /// Computes the argument (also called the phase angle).
    fn arg(self) -> Self::Ty;

    /// Computes the arc sine.
    fn asin(self) -> Self;

    /// Computes the arc hyperbolic sine.
    fn asinh(self) -> Self;

    /// Computes the arc tangent.
    fn atan(self) -> Self;

    /// Computes the arc hyperbolic tangent.
    fn atanh(self) -> Self;

    /// Computes the cosine.
    fn cos(self) -> Self;

    /// Computes the hyperbolic cosine.
    fn cosh(self) -> Self;

    /// Computes the complex base-e exponential.
    fn exp(self) -> Self;

    /// Returns the imaginary part.
    fn imag(self) -> Self::Ty;

    /// Computes the complex base-e logarithm.
    fn log(self) -> Self;

    /// Computes the complex conjugate.
    fn conj(self) -> Self;

    /// Computes the complex power.
    fn pow(self, n: Self) -> Self;

    /// Computes the Riemann sphere projection.
    fn proj(self) -> Self;

    /// Returns the real part.
    fn real_part(self) -> Self::Ty;

    /// Computes the sine.
    fn sin(self) -> Self;

    /// Computes the hyperbolic sine.
    fn sinh(self) -> Self;

    /// Computes the square root.
    fn sqrt(self) -> Self;

    /// Computes the tangent.
    fn tan(self) -> Self;

    /// Computes the hyperbolic tangent.
    fn tanh(self) -> Self;
}

} // verus!

//! The value type, its constructor, the identities and the squared norm.

use std::ops::{Add, Mul, Neg};
use vstd::prelude::*;
use vstd::std_specs::convert::FromSpec;
use vstd::std_specs::ops::{AddSpec, MulSpec, NegSpec};

verus! {

/// A complex number in Cartesian form: `re + im·i`.
///
/// The real part comes first and the imaginary part second.
#[derive(Clone, Copy, Debug)]
pub struct Complex<T> {
    /// The real part.
    pub re: T,
    /// The imaginary part.
    pub im: T,
}

impl<T> Complex<T> {
    /// Builds the complex number with the given real and imaginary parts.
    pub fn new(re: T, im: T) -> (z: Complex<T>)
        ensures
            z == (Complex { re, im }),
    {
        Complex { re, im }
    }
}

/// The identities. The scalar's zero and one are what its conversion from
/// the small integers makes of `0` and `1`.
impl<T: From<i8>> Complex<T> {
    /// The additive identity `(0, 0)`.
    pub open spec fn zero_spec() -> Complex<T> {
        Complex { re: T::from_spec(0i8), im: T::from_spec(0i8) }
    }

    /// The multiplicative identity `(1, 0)`.
    pub open spec fn one_spec() -> Complex<T> {
        Complex { re: T::from_spec(1i8), im: T::from_spec(0i8) }
    }

    /// The imaginary unit `(0, 1)`.
    pub open spec fn i_spec() -> Complex<T> {
        Complex { re: T::from_spec(0i8), im: T::from_spec(1i8) }
    }

    /// Returns the additive identity `(0, 0)`.
    pub fn zero() -> (z: Complex<T>)
        ensures
            T::obeys_from_spec() ==> z == Self::zero_spec(),
    {
        Complex { re: T::from(0i8), im: T::from(0i8) }
    }

    /// Returns the multiplicative identity `(1, 0)`.
    pub fn one() -> (z: Complex<T>)
        ensures
            T::obeys_from_spec() ==> z == Self::one_spec(),
    {
        Complex { re: T::from(1i8), im: T::from(0i8) }
    }

    /// Returns the imaginary unit `(0, 1)`.
    pub fn i() -> (z: Complex<T>)
        ensures
            T::obeys_from_spec() ==> z == Self::i_spec(),
    {
        Complex { re: T::from(0i8), im: T::from(1i8) }
    }
}

impl<T: Add<Output = T> + Copy + Mul<Output = T>> Complex<T> {
    /// The squared norm `re² + im²`.
    pub open spec fn norm_sqr_spec(self) -> T {
        self.re.mul_spec(self.re).add_spec(self.im.mul_spec(self.im))
    }

    /// Holds when the scalar operations that the squared norm needs are
    /// defined: both squares, and their sum.
    pub open spec fn norm_sqr_req(self) -> bool {
        &&& T::obeys_mul_spec()
        &&& self.re.mul_req(self.re)
        &&& self.im.mul_req(self.im)
        &&& self.re.mul_spec(self.re).add_req(self.im.mul_spec(self.im))
    }

    /// Returns the squared norm `re² + im²`; no square root is taken.
    pub fn norm_sqr(self) -> (n: T)
        requires
            self.norm_sqr_req(),
        ensures
            T::obeys_add_spec() ==> n == self.norm_sqr_spec(),
    {
        self.re * self.re + self.im * self.im
    }
}

impl<T: Copy + Neg<Output = T>> Complex<T> {
    /// The conjugate `(re, −im)`.
    pub open spec fn conj_spec(self) -> Complex<T> {
        Complex { re: self.re, im: self.im.neg_spec() }
    }

    /// Returns the conjugate `(re, −im)`.
    pub fn conj(self) -> (z: Complex<T>)
        requires
            self.im.neg_req(),
        ensures
            z.re == self.re,
            T::obeys_neg_spec() ==> z == self.conj_spec(),
    {
        Complex { re: self.re, im: self.im.neg() }
    }
}

} // verus!

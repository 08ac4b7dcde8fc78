//! Arithmetic with a complex number on the left and a bare scalar on the
//! right, through the operators `+ - * /`.
//!
//! A scalar `s` beside a complex number stands for `(s, 0)`.

use crate::number::Complex;
use std::ops::{Add, Div, Mul, Sub};
use vstd::prelude::*;
use vstd::std_specs::ops::{
    AddSpec, AddSpecImpl, DivSpec, DivSpecImpl, MulSpec, MulSpecImpl, SubSpec, SubSpecImpl,
};

verus! {

impl<T: Add<Output = T>> Add<T> for Complex<T> {
    type Output = Complex<T>;

    /// `(a.re + s, a.im)`.
    fn add(self, rhs: T) -> (sum: Complex<T>) {
        Complex { re: self.re + rhs, im: self.im }
    }
}

impl<T: Add<Output = T>> AddSpecImpl<T> for Complex<T> {
    open spec fn obeys_add_spec() -> bool {
        T::obeys_add_spec()
    }

    open spec fn add_req(self, rhs: T) -> bool {
        self.re.add_req(rhs)
    }

    open spec fn add_spec(self, rhs: T) -> Complex<T> {
        Complex { re: self.re.add_spec(rhs), im: self.im }
    }
}

impl<T: Sub<Output = T>> Sub<T> for Complex<T> {
    type Output = Complex<T>;

    /// `(a.re − s, a.im)`.
    fn sub(self, rhs: T) -> (difference: Complex<T>) {
        Complex { re: self.re - rhs, im: self.im }
    }
}

impl<T: Sub<Output = T>> SubSpecImpl<T> for Complex<T> {
    open spec fn obeys_sub_spec() -> bool {
        T::obeys_sub_spec()
    }

    open spec fn sub_req(self, rhs: T) -> bool {
        self.re.sub_req(rhs)
    }

    open spec fn sub_spec(self, rhs: T) -> Complex<T> {
        Complex { re: self.re.sub_spec(rhs), im: self.im }
    }
}

impl<T: Copy + Mul<Output = T>> Mul<T> for Complex<T> {
    type Output = Complex<T>;

    /// `(a.re·s, a.im·s)`.
    fn mul(self, rhs: T) -> (product: Complex<T>) {
        Complex { re: self.re * rhs, im: self.im * rhs }
    }
}

impl<T: Copy + Mul<Output = T>> MulSpecImpl<T> for Complex<T> {
    open spec fn obeys_mul_spec() -> bool {
        T::obeys_mul_spec()
    }

    open spec fn mul_req(self, rhs: T) -> bool {
        self.re.mul_req(rhs) && self.im.mul_req(rhs)
    }

    open spec fn mul_spec(self, rhs: T) -> Complex<T> {
        Complex { re: self.re.mul_spec(rhs), im: self.im.mul_spec(rhs) }
    }
}

impl<T: Copy + Div<Output = T>> Div<T> for Complex<T> {
    type Output = Complex<T>;

    /// `(a.re / s, a.im / s)`.
    fn div(self, rhs: T) -> (quotient: Complex<T>) {
        Complex { re: self.re / rhs, im: self.im / rhs }
    }
}

impl<T: Copy + Div<Output = T>> DivSpecImpl<T> for Complex<T> {
    open spec fn obeys_div_spec() -> bool {
        T::obeys_div_spec()
    }

    open spec fn div_req(self, rhs: T) -> bool {
        self.re.div_req(rhs) && self.im.div_req(rhs)
    }

    open spec fn div_spec(self, rhs: T) -> Complex<T> {
        Complex { re: self.re.div_spec(rhs), im: self.im.div_spec(rhs) }
    }
}

} // verus!

//! Arithmetic between two complex numbers, and negation.
//!
//! Each operator states, as its `*_req`, which scalar operations must be
//! defined for it, and as its `*_spec` the formula it computes, both over the
//! scalar's own operator specifications. Where the result of one scalar
//! operation is the operand of another, the second is known to be defined
//! only for the value that the first is specified to give, so the `*_req`
//! asks of the first that it follow its specification.

use crate::number::Complex;
use std::ops::{Add, Div, Mul, Neg, Sub};
use vstd::prelude::*;
use vstd::std_specs::ops::{
    AddSpec, AddSpecImpl, DivSpec, DivSpecImpl, MulSpec, MulSpecImpl, NegSpec, NegSpecImpl,
    SubSpec, SubSpecImpl,
};

verus! {

impl<T: Add<Output = T>> Add for Complex<T> {
    type Output = Complex<T>;

    /// `(a.re + b.re, a.im + b.im)`.
    fn add(self, rhs: Complex<T>) -> (sum: Complex<T>) {
        Complex { re: self.re + rhs.re, im: self.im + rhs.im }
    }
}

impl<T: Add<Output = T>> AddSpecImpl for Complex<T> {
    open spec fn obeys_add_spec() -> bool {
        T::obeys_add_spec()
    }

    open spec fn add_req(self, rhs: Complex<T>) -> bool {
        self.re.add_req(rhs.re) && self.im.add_req(rhs.im)
    }

    open spec fn add_spec(self, rhs: Complex<T>) -> Complex<T> {
        Complex { re: self.re.add_spec(rhs.re), im: self.im.add_spec(rhs.im) }
    }
}

impl<T: Sub<Output = T>> Sub for Complex<T> {
    type Output = Complex<T>;

    /// `(a.re − b.re, a.im − b.im)`.
    fn sub(self, rhs: Complex<T>) -> (difference: Complex<T>) {
        Complex { re: self.re - rhs.re, im: self.im - rhs.im }
    }
}

impl<T: Sub<Output = T>> SubSpecImpl for Complex<T> {
    open spec fn obeys_sub_spec() -> bool {
        T::obeys_sub_spec()
    }

    open spec fn sub_req(self, rhs: Complex<T>) -> bool {
        self.re.sub_req(rhs.re) && self.im.sub_req(rhs.im)
    }

    open spec fn sub_spec(self, rhs: Complex<T>) -> Complex<T> {
        Complex { re: self.re.sub_spec(rhs.re), im: self.im.sub_spec(rhs.im) }
    }
}

impl<T: Neg<Output = T>> Neg for Complex<T> {
    type Output = Complex<T>;

    /// `(−a.re, −a.im)`.
    fn neg(self) -> (negated: Complex<T>) {
        Complex { re: self.re.neg(), im: self.im.neg() }
    }
}

impl<T: Neg<Output = T>> NegSpecImpl for Complex<T> {
    open spec fn obeys_neg_spec() -> bool {
        T::obeys_neg_spec()
    }

    open spec fn neg_req(self) -> bool {
        self.re.neg_req() && self.im.neg_req()
    }

    open spec fn neg_spec(self) -> Complex<T> {
        Complex { re: self.re.neg_spec(), im: self.im.neg_spec() }
    }
}

impl<T: Add<Output = T> + Copy + Mul<Output = T> + Sub<Output = T>> Mul for Complex<T> {
    type Output = Complex<T>;

    /// `(a.re·b.re − a.im·b.im, a.re·b.im + a.im·b.re)`.
    fn mul(self, rhs: Complex<T>) -> (product: Complex<T>) {
        Complex {
            re: self.re * rhs.re - self.im * rhs.im,
            im: self.re * rhs.im + self.im * rhs.re,
        }
    }
}

impl<T: Add<Output = T> + Copy + Mul<Output = T> + Sub<Output = T>> MulSpecImpl for Complex<T> {
    open spec fn obeys_mul_spec() -> bool {
        T::obeys_mul_spec() && T::obeys_sub_spec() && T::obeys_add_spec()
    }

    open spec fn mul_req(self, rhs: Complex<T>) -> bool {
        &&& T::obeys_mul_spec()
        &&& self.re.mul_req(rhs.re)
        &&& self.im.mul_req(rhs.im)
        &&& self.re.mul_req(rhs.im)
        &&& self.im.mul_req(rhs.re)
        &&& self.re.mul_spec(rhs.re).sub_req(self.im.mul_spec(rhs.im))
        &&& self.re.mul_spec(rhs.im).add_req(self.im.mul_spec(rhs.re))
    }

    open spec fn mul_spec(self, rhs: Complex<T>) -> Complex<T> {
        Complex {
            re: self.re.mul_spec(rhs.re).sub_spec(self.im.mul_spec(rhs.im)),
            im: self.re.mul_spec(rhs.im).add_spec(self.im.mul_spec(rhs.re)),
        }
    }
}

impl<
    T: Add<Output = T> + Copy + Div<Output = T> + Mul<Output = T> + Sub<Output = T>,
> Div for Complex<T> {
    type Output = Complex<T>;

    /// With `d` the squared norm of the divisor:
    /// `((a.re·b.re + a.im·b.im) / d, (a.im·b.re − a.re·b.im) / d)`.
    fn div(self, rhs: Complex<T>) -> (quotient: Complex<T>) {
        let den = rhs.norm_sqr();
        Complex {
            re: (self.re * rhs.re + self.im * rhs.im) / den,
            im: (self.im * rhs.re - self.re * rhs.im) / den,
        }
    }
}

impl<
    T: Add<Output = T> + Copy + Div<Output = T> + Mul<Output = T> + Sub<Output = T>,
> DivSpecImpl for Complex<T> {
    open spec fn obeys_div_spec() -> bool {
        T::obeys_mul_spec() && T::obeys_sub_spec() && T::obeys_add_spec() && T::obeys_div_spec()
    }

    open spec fn div_req(self, rhs: Complex<T>) -> bool {
        &&& T::obeys_add_spec()
        &&& T::obeys_sub_spec()
        &&& rhs.norm_sqr_req()
        &&& self.re.mul_req(rhs.re)
        &&& self.im.mul_req(rhs.im)
        &&& self.im.mul_req(rhs.re)
        &&& self.re.mul_req(rhs.im)
        &&& self.re.mul_spec(rhs.re).add_req(self.im.mul_spec(rhs.im))
        &&& self.im.mul_spec(rhs.re).sub_req(self.re.mul_spec(rhs.im))
        &&& self.re.mul_spec(rhs.re).add_spec(self.im.mul_spec(rhs.im)).div_req(
            rhs.norm_sqr_spec(),
        )
        &&& self.im.mul_spec(rhs.re).sub_spec(self.re.mul_spec(rhs.im)).div_req(
            rhs.norm_sqr_spec(),
        )
    }

    open spec fn div_spec(self, rhs: Complex<T>) -> Complex<T> {
        Complex {
            re: self.re.mul_spec(rhs.re).add_spec(self.im.mul_spec(rhs.im)).div_spec(
                rhs.norm_sqr_spec(),
            ),
            im: self.im.mul_spec(rhs.re).sub_spec(self.re.mul_spec(rhs.im)).div_spec(
                rhs.norm_sqr_spec(),
            ),
        }
    }
}

} // verus!

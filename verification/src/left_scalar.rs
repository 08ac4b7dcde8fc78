//! Arithmetic with a bare scalar on the left and a complex number on the
//! right: the functions `scalar_add`, `scalar_sub`, `scalar_mul` and
//! `scalar_div`.
//!
//! Addition and multiplication give what the operators give with the operands
//! exchanged. Subtraction and division do not: the scalar stands for `(s, 0)`,
//! so the imaginary part of the result changes sign.

use crate::number::Complex;
use std::ops::{Add, Div, Mul, Neg, Sub};
use vstd::prelude::*;
use vstd::std_specs::ops::{AddSpec, DivSpec, MulSpec, NegSpec, SubSpec};

verus! {

impl<T: Add<Output = T>> Complex<T> {
    /// Returns `lhs + rhs` for a scalar `lhs`: the same value as `rhs + lhs`.
    pub fn scalar_add(lhs: T, rhs: Complex<T>) -> (sum: Complex<T>)
        requires
            rhs.add_req(lhs),
        ensures
            T::obeys_add_spec() ==> sum == rhs.add_spec(lhs),
    {
        rhs + lhs
    }
}

impl<T: Copy + Mul<Output = T>> Complex<T> {
    /// Returns `lhs · rhs` for a scalar `lhs`: the same value as `rhs · lhs`.
    pub fn scalar_mul(lhs: T, rhs: Complex<T>) -> (product: Complex<T>)
        requires
            rhs.mul_req(lhs),
        ensures
            T::obeys_mul_spec() ==> product == rhs.mul_spec(lhs),
    {
        rhs * lhs
    }
}

impl<T: Neg<Output = T> + Sub<Output = T>> Complex<T> {
    /// What `scalar_sub` needs: the difference of the real parts and the
    /// negation of the imaginary part are defined.
    pub open spec fn scalar_sub_req(lhs: T, rhs: Complex<T>) -> bool {
        lhs.sub_req(rhs.re) && rhs.im.neg_req()
    }

    /// `(s − a.re, −a.im)`: the imaginary part changes sign.
    pub open spec fn scalar_sub_spec(lhs: T, rhs: Complex<T>) -> Complex<T> {
        Complex { re: lhs.sub_spec(rhs.re), im: rhs.im.neg_spec() }
    }

    /// Returns `lhs − rhs` for a scalar `lhs`, that is `(lhs − rhs.re, −rhs.im)`.
    pub fn scalar_sub(lhs: T, rhs: Complex<T>) -> (difference: Complex<T>)
        requires
            Self::scalar_sub_req(lhs, rhs),
        ensures
            T::obeys_sub_spec() && T::obeys_neg_spec() ==> difference == Self::scalar_sub_spec(
                lhs,
                rhs,
            ),
    {
        Complex { re: lhs - rhs.re, im: rhs.im.neg() }
    }
}

impl<
    T: Add<Output = T> + Copy + Div<Output = T> + Mul<Output = T> + Neg<Output = T>,
> Complex<T> {
    /// What `scalar_div` needs: the squared norm of the divisor, both
    /// products, the negation and both quotients are defined.
    pub open spec fn scalar_div_req(lhs: T, rhs: Complex<T>) -> bool {
        &&& T::obeys_add_spec()
        &&& T::obeys_neg_spec()
        &&& rhs.norm_sqr_req()
        &&& lhs.mul_req(rhs.re)
        &&& lhs.mul_req(rhs.im)
        &&& lhs.mul_spec(rhs.im).neg_req()
        &&& lhs.mul_spec(rhs.re).div_req(rhs.norm_sqr_spec())
        &&& lhs.mul_spec(rhs.im).neg_spec().div_req(rhs.norm_sqr_spec())
    }

    /// With `d` the squared norm of the divisor: `(s·b.re / d, −(s·b.im) / d)`.
    pub open spec fn scalar_div_spec(lhs: T, rhs: Complex<T>) -> Complex<T> {
        Complex {
            re: lhs.mul_spec(rhs.re).div_spec(rhs.norm_sqr_spec()),
            im: lhs.mul_spec(rhs.im).neg_spec().div_spec(rhs.norm_sqr_spec()),
        }
    }

    /// Returns `lhs / rhs` for a scalar `lhs`.
    pub fn scalar_div(lhs: T, rhs: Complex<T>) -> (quotient: Complex<T>)
        requires
            Self::scalar_div_req(lhs, rhs),
        ensures
            T::obeys_div_spec() ==> quotient == Self::scalar_div_spec(lhs, rhs),
    {
        let den = rhs.norm_sqr();
        Complex { re: (lhs * rhs.re) / den, im: (lhs * rhs.im).neg() / den }
    }
}

} // verus!

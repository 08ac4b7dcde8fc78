//! The identity laws and the involution of negation, for every scalar whose
//! own zero, one and negation behave as those of a ring, and the proof that
//! the signed machine integers are such scalars.
//!
//! The arithmetic of complex numbers is built from that of the scalar, so a
//! law of the former rests on a few facts of the latter. Those facts are
//! stated here as predicates on the scalar type.

use crate::number::Complex;
use std::ops::{Add, Mul, Neg, Sub};
use vstd::prelude::*;
use vstd::std_specs::convert::FromSpec;
use vstd::std_specs::ops::{AddSpec, MulSpec, NegSpec, SubSpec};

verus! {

/// Holds when zero and one are neutral at `x`: adding zero to `x` on either
/// side, subtracting zero from it and multiplying it by one are defined and
/// give `x`, and multiplying it by zero is defined and gives zero.
pub open spec fn neutral_at<
    T: Add<Output = T> + From<i8> + Mul<Output = T> + Sub<Output = T>,
>(x: T) -> bool {
    let zero = T::from_spec(0i8);
    let one = T::from_spec(1i8);
    &&& x.add_req(zero) && x.add_spec(zero) == x
    &&& zero.add_req(x) && zero.add_spec(x) == x
    &&& x.sub_req(zero) && x.sub_spec(zero) == x
    &&& one.mul_req(x) && one.mul_spec(x) == x
    &&& zero.mul_req(x) && zero.mul_spec(x) == zero
}

/// Holds of a scalar type whose multiplication follows its specification
/// and whose zero and one are neutral at every value.
pub open spec fn has_identities<
    T: Add<Output = T> + From<i8> + Mul<Output = T> + Sub<Output = T>,
>() -> bool {
    &&& T::obeys_mul_spec()
    &&& forall|x: T| #[trigger] neutral_at(x)
}

/// Holds when negating `x` twice, where it can be negated once, is defined
/// and gives `x`.
pub open spec fn negation_returns_at<T: Neg<Output = T>>(x: T) -> bool {
    x.neg_req() ==> x.neg_spec().neg_req() && x.neg_spec().neg_spec() == x
}

/// Holds of a scalar type on which negation undoes itself at every value.
pub open spec fn has_involutive_negation<T: Neg<Output = T>>() -> bool {
    forall|x: T| #[trigger] negation_returns_at(x)
}

/// The signed machine integers wider than a byte have neutral zero and one
/// and an involutive negation.
pub proof fn lemma_integers_are_rings()
    ensures
        has_identities::<i16>(),
        has_identities::<i32>(),
        has_identities::<i64>(),
        has_identities::<i128>(),
        has_identities::<isize>(),
        has_involutive_negation::<i16>(),
        has_involutive_negation::<i32>(),
        has_involutive_negation::<i64>(),
        has_involutive_negation::<i128>(),
        has_involutive_negation::<isize>(),
{
    assert forall|x: i16| #[trigger] neutral_at(x) by {
        assert(<i16 as FromSpec<i8>>::from_spec(0i8) == 0);
        assert(<i16 as FromSpec<i8>>::from_spec(1i8) == 1);
        assert(1 * x == x);
        assert(0 * x == 0);
    }
    assert forall|x: i32| #[trigger] neutral_at(x) by {
        assert(<i32 as FromSpec<i8>>::from_spec(0i8) == 0);
        assert(<i32 as FromSpec<i8>>::from_spec(1i8) == 1);
        assert(1 * x == x);
        assert(0 * x == 0);
    }
    assert forall|x: i64| #[trigger] neutral_at(x) by {
        assert(<i64 as FromSpec<i8>>::from_spec(0i8) == 0);
        assert(<i64 as FromSpec<i8>>::from_spec(1i8) == 1);
        assert(1 * x == x);
        assert(0 * x == 0);
    }
    assert forall|x: i128| #[trigger] neutral_at(x) by {
        assert(<i128 as FromSpec<i8>>::from_spec(0i8) == 0);
        assert(<i128 as FromSpec<i8>>::from_spec(1i8) == 1);
        assert(1 * x == x);
        assert(0 * x == 0);
    }
    assert forall|x: isize| #[trigger] neutral_at(x) by {
        assert(<isize as FromSpec<i8>>::from_spec(0i8) == 0);
        assert(<isize as FromSpec<i8>>::from_spec(1i8) == 1);
        assert(1 * x == x);
        assert(0 * x == 0);
    }
    assert forall|x: i16| #[trigger] negation_returns_at(x) by {}
    assert forall|x: i32| #[trigger] negation_returns_at(x) by {}
    assert forall|x: i64| #[trigger] negation_returns_at(x) by {}
    assert forall|x: i128| #[trigger] negation_returns_at(x) by {}
    assert forall|x: isize| #[trigger] negation_returns_at(x) by {}
}

/// One is a left identity of multiplication: over a scalar with neutral
/// zero and one, `one · z` is defined for every `z`, and equals `z`.
pub proof fn lemma_one_is_neutral<
    T: Add<Output = T> + Copy + From<i8> + Mul<Output = T> + Sub<Output = T>,
>(z: Complex<T>)
    requires
        has_identities::<T>(),
    ensures
        Complex::<T>::one_spec().mul_req(z),
        Complex::<T>::one_spec().mul_spec(z) == z,
{
    assert(neutral_at(z.re));
    assert(neutral_at(z.im));
}

/// Zero is a right identity of addition: over a scalar with neutral zero
/// and one, `z + zero` is defined for every `z`, and equals `z`.
pub proof fn lemma_zero_is_neutral<
    T: Add<Output = T> + From<i8> + Mul<Output = T> + Sub<Output = T>,
>(z: Complex<T>)
    requires
        has_identities::<T>(),
    ensures
        z.add_req(Complex::<T>::zero_spec()),
        z.add_spec(Complex::<T>::zero_spec()) == z,
{
    assert(neutral_at(z.re));
    assert(neutral_at(z.im));
}

/// Negation is an involution: over a scalar whose negation undoes itself,
/// wherever `−z` is defined, so is `−(−z)`, and it equals `z`.
pub proof fn lemma_negation_is_involution<T: Neg<Output = T>>(z: Complex<T>)
    requires
        has_involutive_negation::<T>(),
        z.neg_req(),
    ensures
        z.neg_spec().neg_req(),
        z.neg_spec().neg_spec() == z,
{
    assert(negation_returns_at(z.re));
    assert(negation_returns_at(z.im));
}

/// The imaginary unit times a scalar plus a scalar is the complex number
/// with those two parts: over a scalar with neutral zero and one,
/// `i · b + a == (a, b)` for every `a` and `b`.
pub proof fn lemma_parts_from_unit<
    T: Add<Output = T> + Copy + From<i8> + Mul<Output = T> + Sub<Output = T>,
>(a: T, b: T)
    requires
        has_identities::<T>(),
    ensures
        Complex::<T>::i_spec().mul_req(b),
        Complex::<T>::i_spec().mul_spec(b).add_req(a),
        Complex::<T>::i_spec().mul_spec(b).add_spec(a) == (Complex { re: a, im: b }),
{
    assert(neutral_at(a));
    assert(neutral_at(b));
}

} // verus!

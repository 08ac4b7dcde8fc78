//! Random complex numbers over the 64-bit integer scalar, drawn from the
//! xorshift generator of the `rand` crate.
//!
//! The generator holds four words and nothing else, so what it will give is
//! settled by the generator itself: `upcoming` names its future draws, and
//! the contracts say which of them a sample is made of.

use crate::number::Complex;
use rand::{Rng, XorShiftRng};
use vstd::prelude::*;

verus! {

/// The xorshift generator of `rand`; its state is not looked into.
#[verifier::external_type_specification]
#[verifier::external_body]
pub struct ExXorShiftRng(XorShiftRng);

/// The scalar that the generator `rng` gives at its draw number `k`, counted
/// from zero: what `rand::Rng::gen` returns for `i64` after `k` earlier
/// draws of an `i64`.
pub uninterp spec fn upcoming(rng: XorShiftRng, k: nat) -> i64;

/// Draws one scalar from `rng` by `rand::Rng::gen`. For `i64` that is the
/// generator's next 64 bits, which the xorshift generator makes from two
/// steps of wrapping shifts and exclusive ors on its four words: the call
/// always returns, its result is settled by the generator as it stood, and
/// the generator is left one draw further on.
#[verifier::external_body]
fn draw(rng: &mut XorShiftRng) -> (x: i64)
    ensures
        x == upcoming(*old(rng), 0),
        forall|k: nat| #[trigger] upcoming(*final(rng), k) == upcoming(*old(rng), k + 1),
{
    rng.gen()
}

impl Complex<i64> {
    /// Returns a random complex number: the real part is the generator's
    /// next draw and the imaginary part the one after it, so each comes from
    /// the whole range of the scalar with nothing that ties one to the
    /// other. The generator is left two draws further on.
    pub fn rand(rng: &mut XorShiftRng) -> (z: Complex<i64>)
        ensures
            z.re == upcoming(*old(rng), 0),
            z.im == upcoming(*old(rng), 1),
            forall|k: nat| #[trigger] upcoming(*final(rng), k) == upcoming(*old(rng), k + 2),
    {
        let re = draw(rng);
        let im = draw(rng);
        Complex::new(re, im)
    }
}

/// Two samples taken one after the other: the second is made of the two
/// draws that follow those of the first, so the samples are equal exactly
/// when those two pairs of draws are. `before` is the generator before the
/// first call of `rand` and `between` the generator as that call left it.
pub proof fn lemma_consecutive_samples(
    before: XorShiftRng,
    between: XorShiftRng,
    first: Complex<i64>,
    second: Complex<i64>,
)
    requires
        first.re == upcoming(before, 0),
        first.im == upcoming(before, 1),
        forall|k: nat| #[trigger] upcoming(between, k) == upcoming(before, k + 2),
        second.re == upcoming(between, 0),
        second.im == upcoming(between, 1),
    ensures
        second.re == upcoming(before, 2),
        second.im == upcoming(before, 3),
        first == second <==> upcoming(before, 0) == upcoming(before, 2) && upcoming(before, 1)
            == upcoming(before, 3),
{
}

} // verus!

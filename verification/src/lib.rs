//! Complex numbers in Cartesian form over a generic scalar, with their
//! arithmetic, identities, comparison helpers and textual rendering.
//!
//! Every operation is written once, for any scalar that has the operators it
//! needs. What an operation returns is stated through the scalar's own
//! operator specifications, so for the machine integers each contract is an
//! exact formula, and for a scalar whose operators carry no specification the
//! same formula is computed with that scalar's operators.

pub mod algebra;
pub mod arith;
pub mod equality;
pub mod laws;
pub mod left_scalar;
pub mod math;
pub mod number;
pub mod sample;
pub mod scalar;
pub mod text;
pub mod tolerance;

pub use crate::math::Math;
pub use crate::number::Complex;

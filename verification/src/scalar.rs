use vstd::prelude::*;

verus! {

/// The arithmetic interface that every part of the engine is generic over.
///
/// The verified core never inspects scalar values: it only moves them
/// between buffers in the shapes and orders that the layer algebra
/// prescribes.  A caller chooses the representation (the accompanying
/// application and tests use ordinary 32-bit floating point) and
/// supplies the operations below.  None of the methods
/// carries a contract, so nothing in the library's proofs depends on how
/// an implementation behaves; every implementation must merely be total.
pub trait Scalar: Copy {
    /// The additive identity, used to seed buffers and gradient
    /// accumulators.
    fn zero() -> Self;

    /// The multiplicative identity, subtracted from the target entry of a
    /// cross-entropy gradient.
    fn one() -> Self;

    /// Embeds a count (for example a batch size) into the scalar domain,
    /// so that an update can be scaled by `lr / batch_size`.
    fn from_count(n: usize) -> Self;

    /// A small zero-mean initialization value derived from a uniformly
    /// distributed 32-bit word.  The distribution and scale are the
    /// implementation's choice; the engine only promises which words are
    /// drawn (see [`crate::nn::WeightRng`]).
    fn from_unit(bits: u32) -> Self;

    /// Addition.
    fn plus(self, other: Self) -> Self;

    /// Subtraction.
    fn minus(self, other: Self) -> Self;

    /// Multiplication.
    fn times(self, other: Self) -> Self;

    /// Division.
    fn div_by(self, other: Self) -> Self;

    /// The exponential function, used by the normalizer and the loss.
    fn exp(self) -> Self;

    /// The natural logarithm, used by the loss.
    fn ln(self) -> Self;

    /// Whether the value is strictly greater than zero (the rectifier's
    /// activation test).
    fn is_positive(self) -> bool;

    /// Whether `self` is strictly less than `other` (used to locate a
    /// maximum before exponentiating).
    fn less_than(self, other: Self) -> bool;
}

} // verus!

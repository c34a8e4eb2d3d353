//! The core's only source of randomness: a weighted boolean draw. The core
//! never seeds or owns a generator; it asks the process-wide one for a
//! single Bernoulli outcome and reasons only about what holds of every
//! outcome.

use vstd::prelude::*;
use rand::Rng;

verus! {

/// Draws `true` with probability `numerator / denominator`.
///
/// Relies on rand's `Rng::random_ratio` on the thread-local generator, which
/// its documentation and source guarantee to return `true` whenever
/// `numerator == denominator` and `false` whenever `numerator == 0`, and to
/// panic only when `denominator == 0` or `numerator > denominator`.
#[verifier::external_body]
pub(crate) fn draw_ratio(numerator: u32, denominator: u32) -> (heads: bool)
    requires
        0 < denominator,
        numerator <= denominator,
    ensures
        numerator == denominator ==> heads,
        numerator == 0 ==> !heads,
{
    rand::rng().random_ratio(numerator, denominator)
}

} // verus!

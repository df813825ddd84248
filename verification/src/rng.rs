//! The randomness source of lane population.
//!
//! A seedable generator is passed explicitly into every constructor that
//! draws from it, so tests can fix the seed.  The generator's state is
//! opaque here: all the simulation relies on is the range of each sample.

use vstd::prelude::*;
use rand::rngs::StdRng;
use rand::Rng;

verus! {

#[verifier::external_type_specification]
#[verifier::external_body]
pub struct ExStdRng(StdRng);

/// Relies on `rand::Rng::gen_range` over the half-open range `low..high`:
/// the sample lies in `[low, high)`, and the call panics only on an empty
/// range, which the precondition rules out.
#[verifier::external_body]
pub(crate) fn rand_range(rng: &mut StdRng, low: i32, high: i32) -> (r: i32)
    requires
        low < high,
    ensures
        low <= r < high,
{
    rng.gen_range(low..high)
}

} // verus!

//! The pseudo-random source that obstacle generation draws from.
//!
//! The generator is `rand`'s standard generator. Nothing here is proved:
//! the two draws are calls into `rand`, and their contracts say what its
//! documentation promises of every outcome.

use rand::rngs::StdRng;
use rand::Rng;
use vstd::prelude::*;

verus! {

/// `rand::rngs::StdRng`, the generator behind the draws. Its state is
/// opaque here; a generator is made by the caller, seeded as it sees fit.
#[verifier::external_type_specification]
#[verifier::external_body]
pub struct ExStdRng(rand::rngs::StdRng);

/// Draws one boolean with `rand::Rng::gen::<bool>`.
///
/// Nothing is claimed of the value: either outcome may come back.
#[verifier::external_body]
pub(crate) fn uniform_bool(rng: &mut StdRng) -> (b: bool) {
    rng.gen::<bool>()
}

/// Draws one integer with `rand::Rng::gen_range(low, high)`.
///
/// `gen_range` panics unless `low < high`, which the caller has to see to.
/// Its documentation promises a value in the range from `low` up to but not
/// including `high`, and that is all that is claimed here.
#[verifier::external_body]
pub(crate) fn uniform_int(rng: &mut StdRng, low: i32, high: i32) -> (r: i32)
    requires
        low < high,
    ensures
        low <= r < high,
{
    rng.gen_range(low, high)
}

} // verus!

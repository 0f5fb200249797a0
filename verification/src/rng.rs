//! The generator's source of randomness.

use vstd::prelude::*;

verus! {

/// Relies on rand's `Rng::gen_range` over `OsRng`, the operating system's
/// stateless random source: the draw lies below the bound. `gen_range`
/// panics only on an empty range, which the precondition rules out; `OsRng`
/// aborts only if the operating system's entropy source fails, an
/// environmental condition no precondition can exclude. Nothing else is
/// promised of the draw: two calls with the same bound may differ.
#[verifier::external_body]
pub(crate) fn random_index(bound: usize) -> (r: usize)
    requires
        bound > 0,
    ensures
        r < bound,
{
    rand::Rng::gen_range(&mut rand::rngs::OsRng, 0..bound)
}

} // verus!

//! Trusted boundary to the `rand` crate: the generator type and the one
//! sampling primitive the rest of the crate draws from.

use vstd::prelude::*;

verus! {

#[verifier::external_type_specification]
#[verifier::external_body]
pub struct ExSmallRng(rand::rngs::SmallRng);

/// Relies on `rand::SeedableRng::from_entropy`: makes a fresh generator
/// seeded from the operating system. Nothing is promised of the values it
/// will yield.
#[verifier::external_body]
pub(crate) fn fresh_rng() -> rand::rngs::SmallRng {
    rand::SeedableRng::from_entropy()
}

/// Relies on `rand::Rng::gen_range`: for a non-empty half-open range it
/// returns a uniformly drawn value inside the range, and panics only on an
/// empty one, which the precondition rules out.
#[verifier::external_body]
pub(crate) fn gen_range(rng: &mut rand::rngs::SmallRng, start: usize, end: usize) -> (r: usize)
    requires
        start < end,
    ensures
        start <= r < end,
{
    rand::Rng::gen_range(rng, start..end)
}

} // verus!

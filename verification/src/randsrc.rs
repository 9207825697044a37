//! The particle emitter's source of randomness: a small fast PRNG from
//! the rand crate, behind trusted declarations.
//!
//! Nothing can be promised about which values come out; the contracts
//! state only the range bound that rand's documentation gives, and the
//! systems that use the values are verified for every outcome.

use vstd::prelude::*;
use rand::Rng;
use rand::SeedableRng;
use rand::rngs::SmallRng;

verus! {

#[verifier::external_type_specification]
#[verifier::external_body]
pub struct ExSmallRng(SmallRng);

/// Relies on rand's `SmallRng::from_rng`, seeded from the thread-local
/// generator `rand::rng()`; nothing is promised about the stream.
#[verifier::external_body]
pub fn small_rng_from_entropy() -> SmallRng {
    SmallRng::from_rng(&mut rand::rng())
}

/// Relies on rand's `Rng::random_range` over the inclusive range
/// `lo..=hi`: it returns a value in the given range and panics on an
/// empty one, so the range must be non-empty.
#[verifier::external_body]
pub fn rng_range_i32(rng: &mut SmallRng, lo: i32, hi: i32) -> (r: i32)
    requires
        lo <= hi,
    ensures
        lo <= r <= hi,
{
    rng.random_range(lo..=hi)
}

} // verus!

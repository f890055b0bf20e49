//! The engine's randomness source: a fast, seedable, non-cryptographic
//! generator, passed explicitly into every trial so that runs are
//! deterministic under a fixed seed.

use vstd::prelude::*;

use rand::Rng;
use rand::SeedableRng;
use rand_xoshiro::Xoshiro128Plus;

verus! {

#[verifier::external_type_specification]
#[verifier::external_body]
pub struct ExXoshiro128Plus(Xoshiro128Plus);

/// Relies on rand_core's `SeedableRng::seed_from_u64`: builds a generator
/// state deterministically from the given seed.
#[verifier::external_body]
pub(crate) fn rng_from_seed(seed: u64) -> (r: Xoshiro128Plus) {
    Xoshiro128Plus::seed_from_u64(seed)
}

/// Relies on rand's `random`: one value from the thread-local generator,
/// itself seeded from machine entropy. Nothing is promised of the value.
#[verifier::external_body]
pub(crate) fn random_seed() -> (r: u64) {
    rand::random::<u64>()
}

/// Relies on rand's `Rng::gen_range`: a value drawn from the given range,
/// which for `0..n` is non-empty exactly when `n >= 1` (an empty range
/// panics), so the draw is always below `n`.
#[verifier::external_body]
pub(crate) fn rand_below(rng: &mut Xoshiro128Plus, n: u64) -> (r: u64)
    requires
        n >= 1,
    ensures
        r < n,
{
    rng.gen_range(0..n)
}

} // verus!

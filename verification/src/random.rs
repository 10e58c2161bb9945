use notan::random::rand::Rng;
use notan::prelude::Random;
use vstd::prelude::*;

verus! {

/// The random number generator of notan (`notan_random::Random`, a wrapper around a
/// PCG generator).
#[verifier::external_type_specification]
#[verifier::external_body]
pub struct ExRandom(Random);

/// Draws a number from `low..=high` with `Rng::random_range` (rand 0.9).
///
/// Trusted: the outcome depends on the generator's state, so all that is claimed is
/// that it lies in the range; `random_range` panics on an empty range, which
/// `requires` rules out. A half-open draw `low..high` with `high` up to `u32::MAX`
/// takes the same steps as `low..=high - 1` (`UniformUsize::sample_single` goes to
/// `UniformInt::<u32>::sample_single`, which checks `low < high` and calls
/// `sample_single_inclusive(low, high - 1)`), so such draws are made with this
/// wrapper too.
#[verifier::external_body]
pub(crate) fn random_usize_in(rng: &mut Random, low: usize, high: usize) -> (n: usize)
    requires
        low <= high,
    ensures
        low <= n <= high,
{
    rng.random_range(low..=high)
}

/// Makes a generator seeded from the operating system's entropy, with
/// `Random::default()` (which calls `Pcg32::from_os_rng()`).
///
/// Trusted: nothing is claimed of the generator, whose state comes from the system
/// (`from_os_rng` panics when the system offers no entropy, which no `requires` can
/// rule out).
#[verifier::external_body]
pub(crate) fn random_from_entropy() -> Random {
    Random::default()
}

/// Draws a `u64` with `Rng::random` (rand 0.9).
///
/// Trusted: the outcome depends on the generator's state; nothing is claimed of it.
#[verifier::external_body]
pub(crate) fn random_u64(rng: &mut Random) -> u64 {
    rng.random::<u64>()
}

/// The generator that `Random::reseed(seed)` leaves behind: `Pcg32::seed_from_u64(seed)`
/// wrapped in a `Random`, a function of the seed alone.
pub uninterp spec fn seeded_random(seed: u64) -> Random;

/// Reseeds a generator with `Random::reseed`.
///
/// Trusted: `reseed` replaces the generator by `Pcg32::seed_from_u64(seed)`, so the
/// generator afterwards depends on `seed` alone, whatever it was before.
#[verifier::external_body]
pub(crate) fn reseed(rng: &mut Random, seed: u64)
    ensures
        *final(rng) == seeded_random(seed),
{
    rng.reseed(seed)
}

} // verus!

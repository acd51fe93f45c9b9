use rand::rngs::StdRng;
use rand::Rng;
use rand::SeedableRng;
use vstd::prelude::*;

verus! {

/// The session's seeded random number generator (rand's `StdRng`), carried opaquely.
#[verifier::external_type_specification]
#[verifier::external_body]
pub struct ExStdRng(StdRng);

/// Relies on rand's `SeedableRng::seed_from_u64`: a generator seeded from `seed`.
/// Nothing is stated of the stream it produces.
#[verifier::external_body]
pub(crate) fn seeded_rng(seed: u64) -> (r: StdRng)
{
    StdRng::seed_from_u64(seed)
}

/// Relies on `rand::random::<u64>()`: any 64-bit value, drawn from the thread-local generator.
#[verifier::external_body]
pub(crate) fn fresh_seed() -> (r: u64)
{
    rand::random::<u64>()
}

/// Relies on rand's `Rng::gen_range` over `0..n`: a value below `n`.
/// `gen_range` panics on an empty range, which `n > 0` rules out.
#[verifier::external_body]
pub(crate) fn gen_below(rng: &mut StdRng, n: usize) -> (r: usize)
    requires
        n > 0,
    ensures
        r < n,
{
    rng.gen_range(0..n)
}

} // verus!

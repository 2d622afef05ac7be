//! The pseudo-random number source, a permuted congruential generator from
//! the `oorandom` crate.  The generator is opaque here: the contracts state
//! only what holds of every draw, and the spawn logic takes the drawn values
//! as plain arguments.

use oorandom::Rand32;
use vstd::prelude::*;

verus! {

/// `oorandom::Rand32`, a 32-bit-output PRNG, declared so it can sit in the
/// game state and pass through signatures.
#[verifier::external_type_specification]
#[verifier::external_body]
pub struct ExRand32(Rand32);

/// Relies on `oorandom::Rand32::new`: builds a generator from a seed, with
/// the crate's default stream increment.
#[verifier::external_body]
pub(crate) fn new_rng(seed: u64) -> Rand32 {
    Rand32::new(seed)
}

/// Relies on `oorandom::Rand32::rand_range`: a draw from `[start, end)`.
/// Its Lemire rejection loop returns `(m >> 32) + start` with
/// `m < 2^32 * (end - start)`, so the result is below `end`; an empty range
/// divides by zero, so the bound must be positive.
#[verifier::external_body]
pub(crate) fn rand_below(rng: &mut Rand32, n: u32) -> (r: u32)
    requires
        n > 0,
    ensures
        r < n,
{
    rng.rand_range(0..n)
}

} // verus!

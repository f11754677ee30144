//! Sample sources. A coherent source is a multi-octave noise function of the
//! `noise` crate, reached through `nannou`; the library seeds it and carries
//! it, and whoever owns the floating-point side evaluates it. A uniform
//! source is the thread's random number generator of the `rand` crate, which
//! answers every query with a fresh reading.

use vstd::prelude::*;
use nannou::noise::{BasicMulti, Seedable};
use rand::rngs::ThreadRng;
use rand::Rng;
use crate::seed::{seed_from_token, seed_of_token};

verus! {

/// `noise::BasicMulti`, a multi-octave noise function. The verifier sees
/// nothing inside it; the two functions below name what the contracts say of
/// it.
#[verifier::external_type_specification]
#[verifier::external_body]
pub struct ExBasicMulti(BasicMulti);

/// The seed that a noise source reports, the one it was last built from.
pub uninterp spec fn noise_seed(noise: BasicMulti) -> u32;

/// The number of octaves that a noise source sums.
pub uninterp spec fn noise_octaves(noise: BasicMulti) -> usize;

/// The greatest seed that a source of the default six octaves can be built
/// from: octave `k` is seeded with the seed plus `k`.
pub const MAX_SEED: u32 = 0xffff_fffa;

/// Calls `BasicMulti::new`. The contract claims the crate's defaults: seed
/// zero and six octaves.
#[verifier::external_body]
pub(crate) fn new_noise() -> (noise: BasicMulti)
    ensures
        noise_seed(noise) == 0,
        noise_octaves(noise) == 6,
{
    BasicMulti::new()
}

/// Calls `Seedable::set_seed`, which seeds octave `k` with `seed + k` and so
/// overflows unless every such sum is a 32-bit number. The contract claims
/// that the source handed back reports the given seed and has as many
/// octaves as before.
#[verifier::external_body]
pub(crate) fn set_seed(noise: BasicMulti, seed: u32) -> (seeded: BasicMulti)
    requires
        seed + noise_octaves(noise) <= 0x1_0000_0000,
    ensures
        noise_seed(seeded) == seed,
        noise_octaves(seeded) == noise_octaves(noise),
{
    noise.set_seed(seed)
}

/// Calls `Seedable::seed`, which reads the seed back.
#[verifier::external_body]
pub(crate) fn seed(noise: &BasicMulti) -> (seed: u32)
    ensures
        seed == noise_seed(*noise),
{
    noise.seed()
}

/// A coherent source of six octaves built from `seed`.
pub fn seeded_noise(seed: u32) -> (noise: BasicMulti)
    requires
        seed <= MAX_SEED,
    ensures
        noise_seed(noise) == seed,
        noise_octaves(noise) == 6,
{
    set_seed(new_noise(), seed)
}

/// A coherent source of six octaves built from the seed of `token`.
pub fn noise_from_token(token: &str) -> (noise: BasicMulti)
    ensures
        noise_seed(noise) == seed_of_token(token@),
        noise_octaves(noise) == 6,
{
    seeded_noise(seed_from_token(token))
}

/// `rand::rngs::ThreadRng`, a handle to the random number generator of the
/// thread. The verifier sees nothing inside it.
#[verifier::external_type_specification]
#[verifier::external_body]
pub struct ExThreadRng(ThreadRng);

/// Calls `rand::thread_rng`, which hands out the generator of this thread.
#[verifier::external_body]
pub(crate) fn thread_rng() -> ThreadRng {
    rand::thread_rng()
}

/// Calls `Rng::gen_range` on the half-open range `low..high`, which panics
/// when the range is empty. The number is random, so the contract claims only
/// that it lies in the range.
#[verifier::external_body]
pub(crate) fn gen_range(rng: &mut ThreadRng, low: i32, high: i32) -> (reading: i32)
    requires
        low < high,
    ensures
        low <= reading < high,
{
    rng.gen_range(low..high)
}

} // verus!

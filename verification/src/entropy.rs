//! The Fortuna generator, which is the engine's nonce source. Nothing here
//! is proved: these are the calls into the `crypto` crate, through the
//! traits of the `rand` crate, and what is claimed of them. The generator is
//! deterministic: what it gives follows from its seed and from the draws
//! made so far. The entropy that seeds it is drawn by whoever makes an
//! engine, and handed in.

use vstd::prelude::*;
use crypto::fortuna::Fortuna;
use rand::{Rng, SeedableRng};

verus! {

/// The Fortuna generator of the `crypto` crate, opaque to the verifier.
#[verifier::external_type_specification]
#[verifier::external_body]
pub struct ExFortuna(Fortuna);

/// The error of an input or output operation, opaque to the verifier.
#[verifier::external_type_specification]
#[verifier::external_body]
pub struct ExIoError(std::io::Error);

/// Whether a generator is seeded: it has been reseeded at least once, its
/// counter is not zero, and its first pool holds fewer bytes than a reseed
/// from the pools takes. Such a generator gives bytes when asked, and
/// neither the clock nor the pools enter into what it gives.
pub uninterp spec fn spec_is_seeded(rng: Fortuna) -> bool;

/// What a generator holds and draws from: its key, then its counter.
pub uninterp spec fn spec_generator_state(rng: Fortuna) -> Seq<u8>;

/// The key and counter of a fresh generator that was reseeded once, with
/// the given seed.
pub uninterp spec fn spec_seeded_state(seed: Seq<u8>) -> Seq<u8>;

/// The `n` bytes that a seeded generator with the given key and counter
/// gives in one draw.
pub uninterp spec fn spec_drawn(state: Seq<u8>, n: nat) -> Seq<u8>;

/// The key and counter that a seeded generator is left with after one draw
/// of `n` bytes.
pub uninterp spec fn spec_advanced(state: Seq<u8>, n: nat) -> Seq<u8>;

/// Calls `rand::SeedableRng::from_seed` for `Fortuna`, which makes a fresh
/// generator, with key and counter zero and empty pools, and reseeds it
/// once with `seed`; a seed of any length is taken. The claim: the
/// generator is seeded, and its key and counter follow from the seed alone
/// (the key is a hash of the zero key and the seed, the counter is one).
#[verifier::external_body]
pub(crate) fn fortuna_from_seed(seed: &[u8]) -> (rng: Fortuna)
    ensures
        spec_is_seeded(rng),
        spec_generator_state(rng) == spec_seeded_state(seed@),
{
    SeedableRng::from_seed(seed)
}

/// Calls `rand::Rng::fill_bytes` on a `Fortuna`, which overwrites all of
/// `dest` with generated bytes and then takes a new key. An unseeded
/// generator stops the thread instead, so it is left out. The claim: on a
/// seeded generator the call returns, the bytes and the key and counter
/// left behind follow from the key and counter before and the number of
/// bytes alone, and the generator stays seeded. It stays seeded because the
/// call touches neither the pools nor the count of reseeds; the counter, of
/// 128 bits, moves on by one for every 16 bytes generated, and the claim
/// takes it not to come round to zero.
#[verifier::external_body]
pub(crate) fn fortuna_fill_bytes(rng: &mut Fortuna, dest: &mut [u8])
    requires
        spec_is_seeded(*old(rng)),
    ensures
        spec_is_seeded(*final(rng)),
        final(dest)@ == spec_drawn(spec_generator_state(*old(rng)), old(dest)@.len()),
        spec_generator_state(*final(rng)) == spec_advanced(
            spec_generator_state(*old(rng)),
            old(dest)@.len(),
        ),
    no_unwind
{
    rng.fill_bytes(dest)
}

} // verus!

use vstd::prelude::*;

use rand::{Rng, SeedableRng};
use rand_chacha::ChaCha8Rng;

verus! {

/// The ChaCha generator of `rand_chacha`, carried through as an opaque value.
#[verifier::external_type_specification]
#[verifier::external_body]
pub struct ExChaCha8Rng(ChaCha8Rng);

/// Relies on `rand_core::SeedableRng::from_os_rng` for `ChaCha8Rng`: a
/// generator seeded from the operating system's entropy source.
#[verifier::external_body]
pub(crate) fn os_seeded_rng() -> ChaCha8Rng {
    ChaCha8Rng::from_os_rng()
}

/// Relies on `rand_core::SeedableRng::seed_from_u64` for `ChaCha8Rng`: a
/// generator whose stream is fixed by `seed`.
#[verifier::external_body]
pub(crate) fn seeded_rng(seed: u64) -> ChaCha8Rng {
    ChaCha8Rng::seed_from_u64(seed)
}

/// Relies on `rand::Rng::random::<u8>`: the next byte of the generator's
/// stream. Any byte may come.
#[verifier::external_body]
pub(crate) fn random_byte(rng: &mut ChaCha8Rng) -> u8 {
    rng.random::<u8>()
}

} // verus!

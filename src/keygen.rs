use vstd::prelude::*;

verus! {

/// The scheme-wide public offset between a seed and its two keys.
pub const OFFSET: u64 = 7;

/// Reduces an integer to the `u64` that it is congruent to modulo 2^64.
pub open spec fn wrap(x: int) -> u64 {
    (x % 0x1_0000_0000_0000_0000int) as u64
}

/// A proving key and the verification key derived with it from one seed.
#[derive(Debug, Clone, Copy, PartialEq, Eq, Structural)]
pub struct KeyPair {
    pub proving_key: u64,
    pub verification_key: u64,
}

/// The key pair that `seed` gives: the seed plus and minus the offset,
/// computed modulo 2^64.
pub open spec fn keys_of(seed: u64) -> KeyPair {
    KeyPair { proving_key: wrap(seed + OFFSET), verification_key: wrap(seed - OFFSET) }
}

/// Derives the key pair of the secret seed `lambda`. Any seed is accepted:
/// the keys are computed modulo 2^64, and the proving key exceeds the
/// verification key by twice the offset, modulo 2^64.
pub fn generate_keys(lambda: u64) -> (r: KeyPair)
    ensures
        r == keys_of(lambda),
        wrap(r.proving_key - r.verification_key) == 2 * OFFSET,
{
    let proving_key = lambda.wrapping_add(OFFSET);
    let verification_key = lambda.wrapping_sub(OFFSET);
    KeyPair { proving_key, verification_key }
}

} // verus!

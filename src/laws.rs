use crate::keygen::{keys_of, wrap, OFFSET};
use crate::prover::{accepts, proof_of, Proof};
use crate::utils::{commitment_of, opens};
use vstd::prelude::*;

verus! {

/// For every seed, the proving key minus the verification key is twice the
/// offset, modulo 2^64; as plain integers it is exactly twice the offset
/// whenever neither key wrapped around.
pub proof fn lemma_key_gap(seed: u64)
    ensures
        wrap(keys_of(seed).proving_key - keys_of(seed).verification_key) == 2 * OFFSET,
        OFFSET <= seed <= u64::MAX - OFFSET ==> keys_of(seed).proving_key
            - keys_of(seed).verification_key == 2 * OFFSET,
{
}

/// Every witness opens its own commitment.
pub proof fn lemma_commitment_opens(w: Seq<u8>)
    ensures
        opens(commitment_of(w), w),
{
}

/// For a key pair from one seed and a witness that opens the commitment, a
/// proof is produced and the verification key accepts it.
pub proof fn lemma_honest_proof_accepted(seed: u64, h: Seq<u8>, w: Seq<u8>)
    requires
        commitment_of(w) == h,
    ensures
        proof_of(keys_of(seed).proving_key, h, w) is Some,
        accepts(keys_of(seed).verification_key, proof_of(keys_of(seed).proving_key, h, w)->0),
{
}

/// A witness that does not open the commitment yields no proof, whatever the key.
pub proof fn lemma_wrong_witness_rejected(pk: u64, h: Seq<u8>, w: Seq<u8>)
    requires
        commitment_of(w) != h,
    ensures
        proof_of(pk, h, w) is None,
{
}

/// Flipping any one bit of an accepted proof's value makes the same
/// verification key reject it.
pub proof fn lemma_tampered_proof_rejected(vk: u64, p: Proof, bit: u64)
    requires
        accepts(vk, p),
        bit < 64,
    ensures
        !accepts(vk, (Proof { proof_value: p.proof_value ^ (1u64 << bit) })),
{
    let v = p.proof_value;
    assert(v ^ (1u64 << bit) != v) by (bit_vector)
        requires
            bit < 64,
    ;
}

} // verus!

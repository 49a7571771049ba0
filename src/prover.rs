use crate::keygen::{wrap, OFFSET};
use crate::utils::{commitment_of, digest_matches, hash_witness, opens};
use vstd::prelude::*;

verus! {

/// A proof of witness knowledge, bound to the proving key.
#[derive(Debug, Clone, Copy, PartialEq, Eq, Structural)]
pub struct Proof {
    pub proof_value: u64,
}

/// The proof that the proving key `pk` gives: `pk + 1`, modulo 2^64.
pub open spec fn proof_from_key(pk: u64) -> Proof {
    Proof { proof_value: wrap(pk + 1) }
}

/// The proof value that the verification key `vk` expects:
/// `vk + 2 * OFFSET + 1`, modulo 2^64.
pub open spec fn expected_proof_value(vk: u64) -> u64 {
    wrap(vk + 2 * OFFSET + 1)
}

/// What generating a proof yields: a proof exactly when `w` opens `x`.
pub open spec fn proof_of(pk: u64, x: Seq<u8>, w: Seq<u8>) -> Option<Proof> {
    if opens(x, w) {
        Some(proof_from_key(pk))
    } else {
        None
    }
}

/// The verification key `vk` accepts `p`.
pub open spec fn accepts(vk: u64, p: Proof) -> bool {
    p.proof_value == expected_proof_value(vk)
}

/// Produces the proof for `pk` when `digest`, the digest of the prover's
/// witness, equals the commitment `x`; no proof otherwise.
pub fn prove_with_digest(pk: u64, x: &[u8], digest: &[u8]) -> (r: Option<Proof>)
    ensures
        r == (if x@ == digest@ { Some(proof_from_key(pk)) } else { None::<Proof> }),
{
    if digest_matches(x, digest) {
        Some(Proof { proof_value: pk.wrapping_add(1) })
    } else {
        None
    }
}

/// Produces a proof with the proving key `pk` when the witness `w` opens the
/// commitment `x`, and no proof otherwise.
pub fn generate_proof(pk: u64, x: &[u8], w: &[u8]) -> (r: Option<Proof>)
    ensures
        r == proof_of(pk, x@, w@),
{
    let d = hash_witness(w);
    prove_with_digest(pk, x, d.as_slice())
}

/// Checks `proof` against the value that the verification key `vk` expects.
/// The commitment is not part of the check.
pub fn verify_proof(vk: u64, _x: &[u8], proof: Proof) -> (r: bool)
    ensures
        r == accepts(vk, proof),
{
    let correct_proof = vk.wrapping_add(2 * OFFSET).wrapping_add(1);
    proof.proof_value == correct_proof
}

} // verus!

use sha2::{Digest, Sha256};
use vstd::prelude::*;

verus! {

/// Length in bytes of a SHA-256 digest, and so of every commitment.
pub const DIGEST_LEN: usize = 32;

/// Length in bytes of a freshly drawn witness.
pub const WITNESS_LEN: usize = 32;

/// The SHA-256 digest of a byte sequence.
pub uninterp spec fn sha256_of(data: Seq<u8>) -> Seq<u8>;

/// The commitment that binds a witness: its SHA-256 digest.
pub open spec fn commitment_of(w: Seq<u8>) -> Seq<u8> {
    sha256_of(w)
}

/// The witness `w` opens the commitment `x`.
pub open spec fn opens(x: Seq<u8>, w: Seq<u8>) -> bool {
    x == commitment_of(w)
}

/// Relies on sha2's `Sha256::digest` (the `digest::Digest` trait): the digest is
/// a function of the input bytes alone, and is 32 bytes long (`OutputSize = U32`).
#[verifier::external_body]
fn sha256(data: &[u8]) -> (r: Vec<u8>)
    ensures
        r@ == sha256_of(data@),
        r@.len() == DIGEST_LEN,
{
    Sha256::digest(data).to_vec()
}

/// Relies on rand's `random::<u8>`: one byte from the thread-local generator.
/// Nothing is known of its value.
#[verifier::external_body]
fn random_byte() -> (r: u8) {
    rand::random::<u8>()
}

/// The commitment to `witness`: its SHA-256 digest.
pub fn hash_witness(witness: &[u8]) -> (r: Vec<u8>)
    ensures
        r@ == commitment_of(witness@),
        r@.len() == DIGEST_LEN,
{
    sha256(witness)
}

/// Compares a commitment with a digest byte for byte.
pub fn digest_matches(x: &[u8], digest: &[u8]) -> (r: bool)
    ensures
        r == (x@ == digest@),
{
    if x.len() != digest.len() {
        return false;
    }
    let mut i: usize = 0;
    while i < x.len()
        invariant
            x@.len() == digest@.len(),
            0 <= i <= x@.len(),
            forall|j: int| 0 <= j < i ==> x@[j] == digest@[j],
        decreases x@.len() - i,
    {
        if x[i] != digest[i] {
            return false;
        }
        i = i + 1;
    }
    assert(x@ =~= digest@);
    true
}

/// Whether the witness `w` opens the commitment `x`, that is whether the
/// SHA-256 digest of `w` equals `x`.
pub fn c(x: &[u8], w: &[u8]) -> (r: bool)
    ensures
        r == opens(x@, w@),
{
    let d = sha256(w);
    digest_matches(x, d.as_slice())
}

/// Draws a fresh witness of `WITNESS_LEN` random bytes.
pub fn random_witness() -> (r: Vec<u8>)
    ensures
        r@.len() == WITNESS_LEN,
{
    let mut w: Vec<u8> = Vec::new();
    while w.len() < WITNESS_LEN
        invariant
            w@.len() <= WITNESS_LEN,
        decreases WITNESS_LEN - w@.len(),
    {
        w.push(random_byte());
    }
    w
}

} // verus!

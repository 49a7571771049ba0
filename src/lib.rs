//! A minimal proof-of-knowledge scheme: a prover shows that it knows a witness
//! whose SHA-256 digest is a public commitment, using a key pair derived from a
//! seed and a single scalar proof value.
pub mod keygen;
pub mod laws;
pub mod prover;
pub mod utils;

pub use keygen::{generate_keys, KeyPair, OFFSET};
pub use prover::{generate_proof, prove_with_digest, verify_proof, Proof};
pub use utils::{c, digest_matches, hash_witness, random_witness};

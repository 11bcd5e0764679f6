//! Laws of verification that hold for every input.
use vstd::prelude::*;
use crate::codec::{
    key_decoding, key_expected_len, key_ic_count, key_points_valid, proof_decoding,
    proof_points_valid, DecodeError, KEY_HEADER_LEN, PROOF_LEN,
};
use crate::groth16::{all_canonical, pairing_holds, verification, VerifyError};

verus! {

/// A proof buffer shorter or longer than `PROOF_LEN` is rejected for its
/// length, whatever the key and the public inputs.
pub proof fn lemma_proof_length_rejected(proof: Seq<u8>, key: Seq<u8>, inputs: Seq<Seq<u8>>)
    requires
        proof.len() != PROOF_LEN,
    ensures
        proof.len() < PROOF_LEN ==> verification(proof, key, inputs) == Err::<bool, VerifyError>(
            VerifyError::Proof(DecodeError::MalformedLength),
        ),
        proof.len() > PROOF_LEN ==> verification(proof, key, inputs) == Err::<bool, VerifyError>(
            VerifyError::Proof(DecodeError::TrailingBytes),
        ),
{
}

/// A key buffer shorter than its header, or of another length than its
/// declared input-coefficient count asks for, is rejected for its length,
/// and verification with it never succeeds.
pub proof fn lemma_key_length_rejected(proof: Seq<u8>, key: Seq<u8>, inputs: Seq<Seq<u8>>)
    requires
        key.len() < KEY_HEADER_LEN || key.len() != key_expected_len(key),
    ensures
        key_decoding(key) == Err::<(), DecodeError>(DecodeError::MalformedLength)
            || key_decoding(key) == Err::<(), DecodeError>(DecodeError::TrailingBytes),
        verification(proof, key, inputs) is Err,
{
}

/// An encoding with a point off the curve or outside its subgroup is
/// rejected while decoding, so verification ends in an error and the
/// pairing equation is never consulted.
pub proof fn lemma_invalid_points_rejected(proof: Seq<u8>, key: Seq<u8>, inputs: Seq<Seq<u8>>)
    requires
        !proof_points_valid(proof) || !key_points_valid(key),
    ensures
        !proof_points_valid(proof) ==> proof_decoding(proof) is Err,
        !key_points_valid(key) ==> key_decoding(key) is Err,
        verification(proof, key, inputs) is Err,
{
}

/// A proof of `PROOF_LEN` bytes that bellman reads, checked against a key
/// that decodes, with one canonical public input for each input coefficient
/// after the first, is accepted when the pairing equation holds for them, as
/// Groth16's completeness gives for a genuine proof of a satisfied circuit.
pub proof fn lemma_pairing_success_accepted(proof: Seq<u8>, key: Seq<u8>, inputs: Seq<Seq<u8>>)
    requires
        proof.len() == PROOF_LEN,
        proof_points_valid(proof),
        key_decoding(key) == Ok::<(), DecodeError>(()),
        all_canonical(inputs),
        inputs.len() + 1 == key_ic_count(key),
        pairing_holds(key, proof, inputs),
    ensures
        verification(proof, key, inputs) == Ok::<bool, VerifyError>(true),
{
}

/// A proof that bellman does not read, or for which the pairing equation
/// fails (as Groth16's soundness gives for a tampered proof, or for a proof
/// checked against another circuit's key), is never accepted.
pub proof fn lemma_pairing_failure_rejected(proof: Seq<u8>, key: Seq<u8>, inputs: Seq<Seq<u8>>)
    requires
        !proof_points_valid(proof) || !pairing_holds(key, proof, inputs),
    ensures
        verification(proof, key, inputs) != Ok::<bool, VerifyError>(true),
{
}

/// Verification is a function of its inputs: equal inputs give equal
/// outcomes.
pub proof fn lemma_verification_deterministic(
    proof1: Seq<u8>,
    key1: Seq<u8>,
    inputs1: Seq<Seq<u8>>,
    proof2: Seq<u8>,
    key2: Seq<u8>,
    inputs2: Seq<Seq<u8>>,
)
    requires
        proof1 == proof2,
        key1 == key2,
        inputs1 == inputs2,
    ensures
        verification(proof1, key1, inputs1) == verification(proof2, key2, inputs2),
{
}

} // verus!

//! Groth16 proof verification over BLS12-381: decoding of proofs, verifying
//! keys and public inputs from untrusted bytes, and the pairing check.

pub mod codec;
pub mod groth16;
pub mod lemmas;

pub use codec::{decode_proof, decode_verifying_key, DecodeError, Proof, VerifyingKey};
pub use groth16::{
    decode_public_inputs, prepare, verify, verify_prepared, verify_with_inputs, PreparedVerifyingKey,
    PublicInputs, VerifyError,
};

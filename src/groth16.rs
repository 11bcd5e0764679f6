//! The Groth16 verifier: public inputs, the prepared key, the pairing check,
//! and the byte-level entry points.
use vstd::prelude::*;
use crate::codec::{
    decode_proof, decode_verifying_key, key_decoding, key_ic_count, le_value, proof_decoding,
    scalar_canonical, scalar_modulus, DecodeError, Proof, VerifyingKey,
};

verus! {

#[verifier::external_type_specification]
#[verifier::external_body]
pub struct ExScalar(bls12_381::Scalar);

/// Why a verification could not be carried out; a proof that fails the
/// pairing equation is no error but an `Ok(false)`.
#[derive(Clone, Copy, Debug, PartialEq, Eq, Structural)]
pub enum VerifyError {
    /// The proof's bytes do not decode.
    Proof(DecodeError),
    /// The verifying key's bytes do not decode.
    Key(DecodeError),
    /// A public input's bytes do not decode.
    Input(DecodeError),
    /// The number of public inputs is not one less than the key's number of
    /// input coefficients.
    InputCountMismatch,
}

/// The byte sequences of a list of 32-byte scalar encodings.
pub open spec fn inputs_view(inputs: Seq<[u8; 32]>) -> Seq<Seq<u8>> {
    inputs.map_values(|a: [u8; 32]| a@)
}

/// Whether every encoding in `inputs` is a canonical scalar.
pub open spec fn all_canonical(inputs: Seq<Seq<u8>>) -> bool {
    forall|i: int| 0 <= i < inputs.len() ==> scalar_canonical(#[trigger] inputs[i])
}

/// Whether the Groth16 equation `e(A, B) == e(alpha, beta) * e(IC_sum, gamma)
/// * e(C, delta)` holds for the key encoded by `key`, the proof encoded by
/// `proof` and the public inputs encoded by `inputs`.
pub uninterp spec fn pairing_holds(key: Seq<u8>, proof: Seq<u8>, inputs: Seq<Seq<u8>>) -> bool;

/// The outcome of verifying the encoded `proof` against the encoded `key`
/// and public inputs. Every decoding is checked before any pairing.
pub open spec fn verification(proof: Seq<u8>, key: Seq<u8>, inputs: Seq<Seq<u8>>) -> Result<
    bool,
    VerifyError,
> {
    match proof_decoding(proof) {
        Err(e) => Err(VerifyError::Proof(e)),
        Ok(()) => match key_decoding(key) {
            Err(e) => Err(VerifyError::Key(e)),
            Ok(()) => if !all_canonical(inputs) {
                Err(VerifyError::Input(DecodeError::NonCanonicalScalar))
            } else if inputs.len() + 1 != key_ic_count(key) {
                Err(VerifyError::InputCountMismatch)
            } else {
                Ok(pairing_holds(key, proof, inputs))
            },
        },
    }
}

/// Decoded public inputs, in order.
pub struct PublicInputs {
    scalars: Vec<bls12_381::Scalar>,
    encoding: Ghost<Seq<Seq<u8>>>,
}

impl PublicInputs {
    /// The encodings these inputs were decoded from.
    pub closed spec fn encoding(&self) -> Seq<Seq<u8>> {
        self.encoding@
    }

    /// Well-formed: one scalar for each encoding.
    pub closed spec fn wf(&self) -> bool {
        self.scalars@.len() == self.encoding@.len()
    }

    /// The number of public inputs.
    pub fn len(&self) -> (r: usize)
        requires
            self.wf(),
        ensures
            r == self.encoding().len(),
    {
        self.scalars.len()
    }
}

/// Relies on bls12_381's `Scalar::from_bytes`: it accepts exactly the
/// little-endian encodings of values below the scalar field's modulus. An
/// accepted scalar is appended to `inputs` together with its encoding; a
/// rejected one leaves `inputs` as it was.
#[verifier::external_body]
fn push_scalar(inputs: &mut PublicInputs, b: &[u8; 32]) -> (r: bool)
    ensures
        r == (le_value(b@) < scalar_modulus()),
        r ==> final(inputs).scalars@.len() == old(inputs).scalars@.len() + 1
            && final(inputs).encoding() == old(inputs).encoding().push(b@),
        !r ==> *final(inputs) == *old(inputs),
{
    match Option::<bls12_381::Scalar>::from(bls12_381::Scalar::from_bytes(b)) {
        Some(s) => {
            inputs.scalars.push(s);
            inputs.encoding = Ghost(inputs.encoding@.push(b@));
            true
        },
        None => false,
    }
}

/// Decodes public inputs from their 32-byte little-endian encodings.
pub fn decode_public_inputs(inputs: &[[u8; 32]]) -> (r: Result<PublicInputs, DecodeError>)
    ensures
        r is Ok == all_canonical(inputs_view(inputs@)),
        r matches Ok(p) ==> p.wf() && p.encoding() == inputs_view(inputs@),
        r matches Err(e) ==> e == DecodeError::NonCanonicalScalar,
{
    let mut decoded = PublicInputs { scalars: Vec::new(), encoding: Ghost(Seq::empty()) };
    let mut i: usize = 0;
    while i < inputs.len()
        invariant
            i <= inputs@.len(),
            decoded.wf(),
            decoded.encoding() == inputs_view(inputs@).take(i as int),
            forall|j: int| 0 <= j < i ==> scalar_canonical(#[trigger] inputs_view(inputs@)[j]),
        decreases inputs@.len() - i,
    {
        if !push_scalar(&mut decoded, &inputs[i]) {
            assert(!scalar_canonical(inputs_view(inputs@)[i as int]));
            return Err(DecodeError::NonCanonicalScalar);
        }
        assert(inputs_view(inputs@).take(i + 1) =~= inputs_view(inputs@).take(i as int).push(
            inputs@[i as int]@,
        ));
        i = i + 1;
    }
    assert(inputs_view(inputs@).take(i as int) =~= inputs_view(inputs@));
    Ok(decoded)
}

/// A bellman prepared verifying key, held as an opaque value.
#[verifier::external_body]
struct PreparedData {
    inner: bellman::groth16::PreparedVerifyingKey<bls12_381::Bls12>,
}


/// A verifying key in the precomputed form that the pairing check uses.
pub struct PreparedVerifyingKey {
    data: PreparedData,
    ic_len: usize,
    encoding: Ghost<Seq<u8>>,
}

impl PreparedVerifyingKey {
    /// The bytes of the key this was prepared from.
    pub closed spec fn encoding(&self) -> Seq<u8> {
        self.encoding@
    }

    /// Well-formed: prepared from a key that decodes from its encoding.
    pub closed spec fn wf(&self) -> bool {
        &&& key_decoding(self.encoding@) == Ok::<(), DecodeError>(())
        &&& self.ic_len == key_ic_count(self.encoding@)
    }
}

/// Relies on bellman's `prepare_verifying_key`, which precomputes the
/// pairing of `alpha` and `beta` and negates `gamma` and `delta`. The
/// prepared key keeps the bytes and the coefficient count of `k`.
#[verifier::external_body]
fn prepare_key(k: &VerifyingKey) -> (r: PreparedVerifyingKey)
    ensures
        r.encoding() == k.encoding(),
        r.ic_len == k.ic_len,
{
    PreparedVerifyingKey {
        data: PreparedData { inner: bellman::groth16::prepare_verifying_key(&k.data.inner) },
        ic_len: k.ic_len,
        encoding: Ghost(k.encoding@),
    }
}

/// Precomputes the pairing-side form of a verifying key.
pub fn prepare(key: &VerifyingKey) -> (r: PreparedVerifyingKey)
    requires
        key.wf(),
    ensures
        r.wf(),
        r.encoding() == key.encoding(),
{
    proof {
        key.lemma_wf();
    }
    prepare_key(key)
}

/// Relies on bellman's `verify_proof`: given one public input for each input
/// coefficient after the first, it succeeds exactly when the Groth16 pairing
/// equation holds.
#[verifier::external_body]
fn check_pairing(pk: &PreparedVerifyingKey, proof: &Proof, inputs: &PublicInputs) -> (r: bool)
    requires
        pk.wf(),
        inputs.wf(),
        inputs.encoding().len() + 1 == key_ic_count(pk.encoding()),
    ensures
        r == pairing_holds(pk.encoding(), proof.encoding(), inputs.encoding()),
{
    bellman::groth16::verify_proof(&pk.data.inner, &proof.data.inner, &inputs.scalars).is_ok()
}

/// Checks a decoded proof against a prepared key and decoded public inputs.
pub fn verify_prepared(pk: &PreparedVerifyingKey, proof: &Proof, inputs: &PublicInputs) -> (r:
    Result<bool, VerifyError>)
    requires
        pk.wf(),
        inputs.wf(),
    ensures
        inputs.encoding().len() + 1 != key_ic_count(pk.encoding()) ==> r == Err::<bool, VerifyError>(
            VerifyError::InputCountMismatch,
        ),
        inputs.encoding().len() + 1 == key_ic_count(pk.encoding()) ==> r == Ok::<bool, VerifyError>(
            pairing_holds(pk.encoding(), proof.encoding(), inputs.encoding()),
        ),
{
    let n = inputs.len();
    if n >= pk.ic_len || n + 1 != pk.ic_len {
        return Err(VerifyError::InputCountMismatch);
    }
    Ok(check_pairing(pk, proof, inputs))
}

/// Decodes the proof, the key and the public inputs, in that order, and
/// checks the proof.
pub fn verify_with_inputs(proof: &[u8], key: &[u8], inputs: &[[u8; 32]]) -> (r: Result<
    bool,
    VerifyError,
>)
    ensures
        r == verification(proof@, key@, inputs_view(inputs@)),
{
    let p = match decode_proof(proof) {
        Ok(p) => p,
        Err(e) => return Err(VerifyError::Proof(e)),
    };
    let k = match decode_verifying_key(key) {
        Ok(k) => k,
        Err(e) => return Err(VerifyError::Key(e)),
    };
    let ins = match decode_public_inputs(inputs) {
        Ok(ins) => ins,
        Err(e) => return Err(VerifyError::Input(e)),
    };
    let pk = prepare(&k);
    verify_prepared(&pk, &p, &ins)
}

/// Verifies a proof with no public inputs: `1` when the proof and the key
/// decode, the key takes no public input, and the pairing equation holds;
/// `0` otherwise.
pub fn verify(proof: &[u8], key: &[u8]) -> (r: i32)
    ensures
        r == (if verification(proof@, key@, Seq::empty()) == Ok::<bool, VerifyError>(true) {
            1i32
        } else {
            0i32
        }),
{
    let none: [[u8; 32]; 0] = [];
    proof {
        assert(inputs_view(none@) =~= Seq::<Seq<u8>>::empty());
    }
    match verify_with_inputs(proof, key, &none) {
        Ok(true) => 1,
        _ => 0,
    }
}

} // verus!

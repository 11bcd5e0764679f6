//! Decoding of proofs, verifying keys and public-input scalars from bytes.
use vstd::prelude::*;

verus! {

/// Encoded size of a proof: compressed `A` (G1, 48 bytes), `B` (G2, 96 bytes)
/// and `C` (G1, 48 bytes).
pub const PROOF_LEN: usize = 192;

/// Encoded size of the fixed part of a verifying key: uncompressed
/// `alpha_g1`, `beta_g1`, `beta_g2`, `gamma_g2`, `delta_g1`, `delta_g2`.
pub const KEY_POINTS_LEN: usize = 864;

/// Encoded size of the fixed part of a verifying key followed by the
/// big-endian `u32` count of input coefficients.
pub const KEY_HEADER_LEN: usize = 868;

/// Encoded size of one uncompressed G1 point (an input coefficient).
pub const G1_UNCOMPRESSED_LEN: usize = 96;

/// Encoded size of one public-input scalar (little-endian).
pub const SCALAR_LEN: usize = 32;

/// Why a byte buffer could not be decoded.
#[derive(Clone, Copy, Debug, PartialEq, Eq, Structural)]
pub enum DecodeError {
    /// The buffer ends before the structure it must hold is complete.
    MalformedLength,
    /// The buffer holds bytes after the complete structure.
    TrailingBytes,
    /// A point encoding is not a point of the curve's prime-order subgroup
    /// (off the curve, outside the subgroup, non-canonical, or the identity
    /// where the structure forbids it).
    InvalidPoint,
    /// A scalar encoding is not below the scalar field's modulus.
    NonCanonicalScalar,
}

/// The order of the scalar field of BLS12-381, from its 64-bit limbs.
pub open spec fn scalar_modulus() -> nat {
    let limb: nat = 0x1_0000_0000_0000_0000;
    0xffff_ffff_0000_0001 + limb * (0x53bd_a402_fffe_5bfe + limb * (0x3339_d808_09a1_d805
        + limb * 0x73ed_a753_299d_7d48))
}

/// The unsigned integer that the bytes `b` encode, least significant first.
pub open spec fn le_value(b: Seq<u8>) -> nat
    decreases b.len(),
{
    if b.len() == 0 {
        0
    } else {
        b[0] as nat + 256 * le_value(b.drop_first())
    }
}

/// Whether `b` is the canonical encoding of a scalar field element.
pub open spec fn scalar_canonical(b: Seq<u8>) -> bool {
    b.len() == SCALAR_LEN && le_value(b) < scalar_modulus()
}

/// The big-endian `u32` held by the four bytes of `b` from `at` on.
pub open spec fn be_u32_at(b: Seq<u8>, at: int) -> nat {
    b[at] as nat * 16777216 + b[at + 1] as nat * 65536 + b[at + 2] as nat * 256
        + b[at + 3] as nat
}

/// The number of input coefficients that a verifying key's encoding declares.
pub open spec fn key_ic_count(b: Seq<u8>) -> nat {
    be_u32_at(b, KEY_POINTS_LEN as int)
}

/// The length of a verifying key's encoding whose header is `b`'s.
pub open spec fn key_expected_len(b: Seq<u8>) -> nat {
    (KEY_HEADER_LEN + G1_UNCOMPRESSED_LEN * key_ic_count(b)) as nat
}

/// What the length of a proof's encoding allows.
pub open spec fn proof_framing(b: Seq<u8>) -> Result<(), DecodeError> {
    if b.len() < PROOF_LEN {
        Err(DecodeError::MalformedLength)
    } else if b.len() > PROOF_LEN {
        Err(DecodeError::TrailingBytes)
    } else {
        Ok(())
    }
}

/// What the length and the declared count of a verifying key's encoding
/// allow. A key has at least one input coefficient (the constant term).
pub open spec fn key_framing(b: Seq<u8>) -> Result<(), DecodeError> {
    if b.len() < KEY_HEADER_LEN {
        Err(DecodeError::MalformedLength)
    } else if key_ic_count(b) == 0 {
        Err(DecodeError::MalformedLength)
    } else if b.len() < key_expected_len(b) {
        Err(DecodeError::MalformedLength)
    } else if b.len() > key_expected_len(b) {
        Err(DecodeError::TrailingBytes)
    } else {
        Ok(())
    }
}

/// Whether bellman reads a valid proof (three subgroup points, none the
/// identity) from the first bytes of `b`.
pub uninterp spec fn proof_points_valid(b: Seq<u8>) -> bool;

/// Whether bellman reads a valid verifying key (every point in its subgroup,
/// no input coefficient the identity) from the first bytes of `b`.
pub uninterp spec fn key_points_valid(b: Seq<u8>) -> bool;

/// The outcome of decoding `b` as a proof.
pub open spec fn proof_decoding(b: Seq<u8>) -> Result<(), DecodeError> {
    match proof_framing(b) {
        Err(e) => Err(e),
        Ok(()) => if proof_points_valid(b) {
            Ok(())
        } else {
            Err(DecodeError::InvalidPoint)
        },
    }
}

/// The outcome of decoding `b` as a verifying key.
pub open spec fn key_decoding(b: Seq<u8>) -> Result<(), DecodeError> {
    match key_framing(b) {
        Err(e) => Err(e),
        Ok(()) => if key_points_valid(b) {
            Ok(())
        } else {
            Err(DecodeError::InvalidPoint)
        },
    }
}

/// A bellman proof, held as an opaque value.
#[verifier::external_body]
pub(crate) struct ProofData {
    pub(crate) inner: bellman::groth16::Proof<bls12_381::Bls12>,
}

/// A bellman verifying key, held as an opaque value.
#[verifier::external_body]
pub(crate) struct KeyData {
    pub(crate) inner: bellman::groth16::VerifyingKey<bls12_381::Bls12>,
}

/// A decoded Groth16 proof `(A, B, C)`.
pub struct Proof {
    pub(crate) data: ProofData,
    pub(crate) encoding: Ghost<Seq<u8>>,
}

impl Proof {
    /// The bytes this proof was decoded from.
    pub closed spec fn encoding(&self) -> Seq<u8> {
        self.encoding@
    }
}

/// A decoded Groth16 verifying key.
pub struct VerifyingKey {
    pub(crate) data: KeyData,
    pub(crate) ic_len: usize,
    pub(crate) encoding: Ghost<Seq<u8>>,
}

/// Relies on bellman's `Proof::read`: it reads the three compressed points
/// and succeeds exactly when each is in its subgroup and not the identity.
/// The proof keeps the bytes it was read from.
#[verifier::external_body]
fn read_proof(b: &[u8]) -> (r: Option<Proof>)
    ensures
        r is Some == proof_points_valid(b@),
        r matches Some(p) ==> p.encoding() == b@,
{
    match bellman::groth16::Proof::<bls12_381::Bls12>::read(b) {
        Ok(p) => Some(Proof { data: ProofData { inner: p }, encoding: Ghost(b@) }),
        Err(_) => None,
    }
}

/// Relies on bellman's `VerifyingKey::read`: it reads the uncompressed points,
/// the big-endian `u32` count at `KEY_POINTS_LEN` and that many input
/// coefficients, and succeeds exactly when each point is valid. The key keeps
/// the bytes it was read from and the number of coefficients it holds.
#[verifier::external_body]
fn read_key(b: &[u8]) -> (r: Option<VerifyingKey>)
    ensures
        r is Some == key_points_valid(b@),
        r matches Some(k) ==> k.encoding() == b@ && k.ic_len == key_ic_count(b@),
{
    match bellman::groth16::VerifyingKey::<bls12_381::Bls12>::read(b) {
        Ok(k) => Some(VerifyingKey { ic_len: k.ic.len(), data: KeyData { inner: k }, encoding: Ghost(b@) }),
        Err(_) => None,
    }
}

impl VerifyingKey {
    /// The bytes this key was decoded from.
    pub closed spec fn encoding(&self) -> Seq<u8> {
        self.encoding@
    }

    /// Well-formed: the count of input coefficients is the one its bytes
    /// declare, and the bytes decode.
    pub closed spec fn wf(&self) -> bool {
        &&& key_decoding(self.encoding@) == Ok::<(), DecodeError>(())
        &&& self.ic_len == key_ic_count(self.encoding@)
    }

    /// What well-formedness gives to the rest of the crate.
    pub(crate) proof fn lemma_wf(&self)
        requires
            self.wf(),
        ensures
            self.ic_len == key_ic_count(self.encoding()),
            key_decoding(self.encoding()) == Ok::<(), DecodeError>(()),
    {
    }

    /// The number of input coefficients: one more than the public inputs.
    pub fn ic_len(&self) -> (r: usize)
        requires
            self.wf(),
        ensures
            r == key_ic_count(self.encoding()),
            r >= 1,
            key_decoding(self.encoding()) == Ok::<(), DecodeError>(()),
    {
        self.ic_len
    }
}

/// Decodes a proof from exactly `PROOF_LEN` bytes.
pub fn decode_proof(bytes: &[u8]) -> (r: Result<Proof, DecodeError>)
    ensures
        r is Ok == (proof_decoding(bytes@) == Ok::<(), DecodeError>(())),
        r matches Ok(p) ==> p.encoding() == bytes@,
        r matches Err(e) ==> proof_decoding(bytes@) == Err::<(), DecodeError>(e),
{
    if bytes.len() < PROOF_LEN {
        return Err(DecodeError::MalformedLength);
    }
    if bytes.len() > PROOF_LEN {
        return Err(DecodeError::TrailingBytes);
    }
    match read_proof(bytes) {
        Some(p) => Ok(p),
        None => Err(DecodeError::InvalidPoint),
    }
}

/// Decodes a verifying key: the fixed points, a big-endian `u32` count `n`
/// of input coefficients (at least one), and exactly `n` of them.
pub fn decode_verifying_key(bytes: &[u8]) -> (r: Result<VerifyingKey, DecodeError>)
    ensures
        r is Ok == (key_decoding(bytes@) == Ok::<(), DecodeError>(())),
        r matches Ok(k) ==> k.encoding() == bytes@ && k.wf(),
        r matches Err(e) ==> key_decoding(bytes@) == Err::<(), DecodeError>(e),
{
    if bytes.len() < KEY_HEADER_LEN {
        return Err(DecodeError::MalformedLength);
    }
    let count: u64 = (bytes[864] as u64) * 16777216 + (bytes[865] as u64) * 65536
        + (bytes[866] as u64) * 256 + (bytes[867] as u64);
    if count == 0 {
        return Err(DecodeError::MalformedLength);
    }
    let expected: u64 = 868 + 96 * count;
    let len: u64 = bytes.len() as u64;
    if len < expected {
        return Err(DecodeError::MalformedLength);
    }
    if len > expected {
        return Err(DecodeError::TrailingBytes);
    }
    match read_key(bytes) {
        Some(k) => Ok(k),
        None => Err(DecodeError::InvalidPoint),
    }
}

} // verus!

use bellman::groth16::{create_random_proof, generate_random_parameters, Parameters};
use bellman::{Circuit, ConstraintSystem, SynthesisError};
use bls12_381::{Bls12, Scalar};
use rand::rngs::StdRng;
use rand::SeedableRng;
use zk::{
    decode_proof, decode_public_inputs, decode_verifying_key, prepare, verify, verify_prepared,
    verify_with_inputs, DecodeError, VerifyError,
};

/// Knowledge of `a` and `b` whose product is `c`, with no public input.
#[derive(Clone, Copy)]
struct Product {
    a: Option<u64>,
    b: Option<u64>,
    salt: u64,
}

impl Circuit<Scalar> for Product {
    fn synthesize<CS: ConstraintSystem<Scalar>>(self, cs: &mut CS) -> Result<(), SynthesisError> {
        let av = self.a;
        let bv = self.b;
        let a = cs.alloc(|| "a", || av.map(Scalar::from).ok_or(SynthesisError::AssignmentMissing))?;
        let b = cs.alloc(|| "b", || bv.map(Scalar::from).ok_or(SynthesisError::AssignmentMissing))?;
        let c = cs.alloc(
            || "c",
            || match (av, bv) {
                (Some(x), Some(y)) => Ok(Scalar::from(x) * Scalar::from(y)),
                _ => Err(SynthesisError::AssignmentMissing),
            },
        )?;
        cs.enforce(|| "a * b = c", |lc| lc + a, |lc| lc + b, |lc| lc + c);
        // A second constraint whose shape depends on `salt`, so that circuits
        // with different salts have different keys.
        let salt = Scalar::from(self.salt);
        cs.enforce(
            || "salted",
            |lc| lc + (salt, a),
            |lc| lc + CS::one(),
            |lc| lc + (salt, a),
        );
        Ok(())
    }
}

/// Knowledge of `x` whose square is the public input `y`.
#[derive(Clone, Copy)]
struct Square {
    x: Option<u64>,
}

impl Circuit<Scalar> for Square {
    fn synthesize<CS: ConstraintSystem<Scalar>>(self, cs: &mut CS) -> Result<(), SynthesisError> {
        let xv = self.x;
        let x = cs.alloc(|| "x", || xv.map(Scalar::from).ok_or(SynthesisError::AssignmentMissing))?;
        let y = cs.alloc_input(
            || "y",
            || xv.map(|v| Scalar::from(v) * Scalar::from(v)).ok_or(SynthesisError::AssignmentMissing),
        )?;
        cs.enforce(|| "x * x = y", |lc| lc + x, |lc| lc + x, |lc| lc + y);
        Ok(())
    }
}

fn key_bytes(params: &Parameters<Bls12>) -> Vec<u8> {
    let mut out = Vec::new();
    params.vk.write(&mut out).unwrap();
    out
}

fn proof_bytes<C: Circuit<Scalar>>(circuit: C, params: &Parameters<Bls12>, seed: u64) -> Vec<u8> {
    let mut rng = StdRng::seed_from_u64(seed);
    let proof = create_random_proof(circuit, params, &mut rng).unwrap();
    let mut out = Vec::new();
    proof.write(&mut out).unwrap();
    out
}

fn product_setup(salt: u64, seed: u64) -> (Vec<u8>, Vec<u8>) {
    let mut rng = StdRng::seed_from_u64(seed);
    let blank = Product { a: None, b: None, salt };
    let params = generate_random_parameters::<Bls12, _, _>(blank, &mut rng).unwrap();
    let proof = proof_bytes(Product { a: Some(3), b: Some(5), salt }, &params, seed + 1);
    (proof, key_bytes(&params))
}

fn square_setup(seed: u64) -> (Vec<u8>, Vec<u8>) {
    let mut rng = StdRng::seed_from_u64(seed);
    let params = generate_random_parameters::<Bls12, _, _>(Square { x: None }, &mut rng).unwrap();
    let proof = proof_bytes(Square { x: Some(7) }, &params, seed + 1);
    (proof, key_bytes(&params))
}

fn scalar_bytes(v: u64) -> [u8; 32] {
    Scalar::from(v).to_bytes()
}

/// The scalar field's modulus, little-endian.
fn modulus_bytes() -> [u8; 32] {
    let limbs: [u64; 4] =
        [0xffff_ffff_0000_0001, 0x53bd_a402_fffe_5bfe, 0x3339_d808_09a1_d805, 0x73ed_a753_299d_7d48];
    let mut out = [0u8; 32];
    for (i, limb) in limbs.iter().enumerate() {
        out[8 * i..8 * i + 8].copy_from_slice(&limb.to_le_bytes());
    }
    out
}

#[test]
fn empty_inputs_genuine_proof_accepted() {
    let (proof, key) = product_setup(1, 10);
    assert_eq!(proof.len(), 192);
    assert_eq!(key.len(), 868 + 96);
    assert_eq!(verify(&proof, &key), 1);
}

#[test]
fn empty_inputs_last_byte_incremented_rejected() {
    let (mut proof, key) = product_setup(1, 20);
    let last = proof.len() - 1;
    proof[last] = proof[last].wrapping_add(1);
    assert_eq!(verify(&proof, &key), 0);
}

#[test]
fn tampered_byte_in_each_point_rejected() {
    let (proof, key) = product_setup(2, 30);
    for at in [5usize, 47, 48, 100, 143, 144, 170, 191] {
        let mut bad = proof.clone();
        bad[at] ^= 0x01;
        assert_eq!(verify(&bad, &key), 0, "byte {}", at);
        assert_ne!(verify_with_inputs(&bad, &key, &[]), Ok(true));
    }
}

#[test]
fn key_from_other_circuit_rejected() {
    let (proof, _) = product_setup(1, 40);
    let (_, other_key) = product_setup(9, 50);
    assert_eq!(verify(&proof, &other_key), 0);
    assert_eq!(verify_with_inputs(&proof, &other_key, &[]), Ok(false));
}

#[test]
fn proof_length_mismatch_rejected() {
    let (proof, key) = product_setup(1, 60);
    assert_eq!(
        verify_with_inputs(&proof[..191], &key, &[]),
        Err(VerifyError::Proof(DecodeError::MalformedLength))
    );
    let mut longer = proof.clone();
    longer.push(0);
    assert_eq!(
        verify_with_inputs(&longer, &key, &[]),
        Err(VerifyError::Proof(DecodeError::TrailingBytes))
    );
    assert_eq!(verify(&proof[..191], &key), 0);
    assert_eq!(verify(&longer, &key), 0);
    assert_eq!(verify(&[], &key), 0);
    assert!(matches!(decode_proof(&[]), Err(DecodeError::MalformedLength)));
}

#[test]
fn key_length_mismatch_rejected() {
    let (proof, key) = product_setup(1, 70);
    assert_eq!(
        verify_with_inputs(&proof, &key[..key.len() - 1], &[]),
        Err(VerifyError::Key(DecodeError::MalformedLength))
    );
    assert_eq!(
        verify_with_inputs(&proof, &key[..100], &[]),
        Err(VerifyError::Key(DecodeError::MalformedLength))
    );
    let mut longer = key.clone();
    longer.extend_from_slice(&[0u8; 96]);
    assert_eq!(
        verify_with_inputs(&proof, &longer, &[]),
        Err(VerifyError::Key(DecodeError::TrailingBytes))
    );
    assert_eq!(verify(&proof, &longer), 0);
    assert_eq!(verify(&proof, &[]), 0);
    assert!(matches!(decode_verifying_key(&[]), Err(DecodeError::MalformedLength)));
}

#[test]
fn key_without_coefficients_rejected() {
    let (_, key) = product_setup(1, 80);
    let mut bare = key[..868].to_vec();
    bare[864..868].copy_from_slice(&[0, 0, 0, 0]);
    assert!(matches!(decode_verifying_key(&bare), Err(DecodeError::MalformedLength)));
}

#[test]
fn invalid_proof_points_rejected_at_decode() {
    let (proof, key) = product_setup(1, 90);
    // An `x` coordinate above the field's modulus.
    let mut off_curve = proof.clone();
    for b in off_curve[1..48].iter_mut() {
        *b = 0xff;
    }
    assert!(matches!(decode_proof(&off_curve), Err(DecodeError::InvalidPoint)));
    assert_eq!(
        verify_with_inputs(&off_curve, &key, &[]),
        Err(VerifyError::Proof(DecodeError::InvalidPoint))
    );
    // The point at infinity in place of `C`.
    let mut identity = proof.clone();
    identity[144] = 0xc0;
    for b in identity[145..192].iter_mut() {
        *b = 0;
    }
    assert!(matches!(decode_proof(&identity), Err(DecodeError::InvalidPoint)));
    assert_eq!(verify(&identity, &key), 0);
}

#[test]
fn invalid_key_points_rejected_at_decode() {
    let (proof, key) = product_setup(1, 100);
    // `alpha` replaced by (0, 1), which is not on y^2 = x^3 + 4.
    let mut off_curve = key.clone();
    for b in off_curve[..96].iter_mut() {
        *b = 0;
    }
    off_curve[95] = 1;
    assert!(matches!(decode_verifying_key(&off_curve), Err(DecodeError::InvalidPoint)));
    assert_eq!(
        verify_with_inputs(&proof, &off_curve, &[]),
        Err(VerifyError::Key(DecodeError::InvalidPoint))
    );
    assert_eq!(verify(&proof, &off_curve), 0);
}

#[test]
fn repeated_verification_is_identical() {
    let (proof, key) = product_setup(3, 110);
    let (other_proof, other_key) = product_setup(4, 120);
    let first = verify(&proof, &key);
    let other = verify(&other_proof, &other_key);
    let crossed = verify(&proof, &other_key);
    for _ in 0..3 {
        assert_eq!(verify(&proof, &key), first);
        assert_eq!(verify(&other_proof, &other_key), other);
        assert_eq!(verify(&proof, &other_key), crossed);
    }
    assert_eq!((first, other, crossed), (1, 1, 0));
}

#[test]
fn public_input_proof_accepted_and_wrong_input_rejected() {
    let (proof, key) = square_setup(130);
    assert_eq!(verify_with_inputs(&proof, &key, &[scalar_bytes(49)]), Ok(true));
    assert_eq!(verify_with_inputs(&proof, &key, &[scalar_bytes(48)]), Ok(false));
}

#[test]
fn input_count_mismatch_is_an_error() {
    let (proof, key) = square_setup(140);
    assert_eq!(verify_with_inputs(&proof, &key, &[]), Err(VerifyError::InputCountMismatch));
    assert_eq!(
        verify_with_inputs(&proof, &key, &[scalar_bytes(49), scalar_bytes(1)]),
        Err(VerifyError::InputCountMismatch)
    );
    assert_eq!(verify(&proof, &key), 0);
}

#[test]
fn non_canonical_input_rejected() {
    let (proof, key) = square_setup(150);
    assert_eq!(
        verify_with_inputs(&proof, &key, &[modulus_bytes()]),
        Err(VerifyError::Input(DecodeError::NonCanonicalScalar))
    );
    assert_eq!(
        verify_with_inputs(&proof, &key, &[[0xff; 32]]),
        Err(VerifyError::Input(DecodeError::NonCanonicalScalar))
    );
}

#[test]
fn scalar_decoding_boundary() {
    let mut below = modulus_bytes();
    below[0] -= 1;
    let ok = decode_public_inputs(&[scalar_bytes(0), below]).ok().unwrap();
    assert_eq!(ok.len(), 2);
    assert!(matches!(
        decode_public_inputs(&[scalar_bytes(1), modulus_bytes()]),
        Err(DecodeError::NonCanonicalScalar)
    ));
    assert_eq!(decode_public_inputs(&[]).ok().unwrap().len(), 0);
}

#[test]
fn decoded_key_counts_coefficients() {
    let (_, product_key) = product_setup(1, 160);
    let (_, square_key) = square_setup(170);
    assert_eq!(decode_verifying_key(&product_key).ok().unwrap().ic_len(), 1);
    assert_eq!(decode_verifying_key(&square_key).ok().unwrap().ic_len(), 2);
    assert_eq!(square_key.len(), 868 + 2 * 96);
}

#[test]
fn prepared_key_checks_pairing() {
    let (proof, key) = square_setup(180);
    let vk = decode_verifying_key(&key).ok().unwrap();
    let pk = prepare(&vk);
    let p = decode_proof(&proof).ok().unwrap();
    let good = decode_public_inputs(&[scalar_bytes(49)]).ok().unwrap();
    let bad = decode_public_inputs(&[scalar_bytes(50)]).ok().unwrap();
    let none = decode_public_inputs(&[]).ok().unwrap();
    assert_eq!(verify_prepared(&pk, &p, &good), Ok(true));
    assert_eq!(verify_prepared(&pk, &p, &bad), Ok(false));
    assert_eq!(verify_prepared(&pk, &p, &none), Err(VerifyError::InputCountMismatch));
}

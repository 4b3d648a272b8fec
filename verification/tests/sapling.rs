use group::GroupEncoding;

use zcash_consensus::curve::{
    spend_auth_generator, value_commitment_randomness_generator,
    value_commitment_value_generator, GrothProof, GrothVerifyingKey,
};
use zcash_consensus::redjubjub::{PublicKey, Signature};
use zcash_consensus::sapling::{SaplingVerificationContext, MAX_MONEY};

fn h_star(a: &[u8], b: &[u8]) -> jubjub::Fr {
    let mut state = blake2b_simd::Params::new()
        .hash_length(64)
        .personal(b"Zcash_RedJubjubH")
        .to_state();
    state.update(a);
    state.update(b);
    let digest: [u8; 64] = state.finalize().as_bytes().try_into().unwrap();
    jubjub::Fr::from_bytes_wide(&digest)
}

/// Produces a signature over `key_bytes || sighash` for the secret scalar
/// `sk` against `generator`, with a fixed nonce (fine for tests).
fn sign(
    sk: jubjub::Fr,
    generator: jubjub::ExtendedPoint,
    key_bytes: [u8; 32],
    sighash: &[u8; 32],
    nonce: u64,
) -> Signature {
    let r = jubjub::Fr::from(nonce);
    let rbar = (generator * r).to_bytes();
    let mut message = [0u8; 64];
    message[..32].copy_from_slice(&key_bytes);
    message[32..].copy_from_slice(sighash);
    let c = h_star(&rbar, &message);
    let s = r + c * sk;
    Signature { rbar, sbar: s.to_bytes() }
}

fn dummy_proof() -> GrothProof {
    let proof = bellman::groth16::Proof::<bls12_381::Bls12> {
        a: bls12_381::G1Affine::generator(),
        b: bls12_381::G2Affine::generator(),
        c: bls12_381::G1Affine::generator(),
    };
    let mut bytes = Vec::new();
    proof.write(&mut bytes).unwrap();
    GrothProof::read(&bytes).unwrap()
}

fn dummy_verifying_key(inputs: usize) -> GrothVerifyingKey {
    let vk = bellman::groth16::VerifyingKey::<bls12_381::Bls12> {
        alpha_g1: bls12_381::G1Affine::generator(),
        beta_g1: bls12_381::G1Affine::generator(),
        beta_g2: bls12_381::G2Affine::generator(),
        gamma_g2: bls12_381::G2Affine::generator(),
        delta_g1: bls12_381::G1Affine::generator(),
        delta_g2: bls12_381::G2Affine::generator(),
        ic: vec![bls12_381::G1Affine::generator(); inputs + 1],
    };
    let mut bytes = Vec::new();
    vk.write(&mut bytes).unwrap();
    GrothVerifyingKey::read(&bytes).unwrap()
}

fn order_two_point() -> jubjub::ExtendedPoint {
    jubjub::AffinePoint::from_raw_unchecked(
        bls12_381::Scalar::zero(),
        -bls12_381::Scalar::one(),
    )
    .to_extended()
}

#[test]
fn small_order_points_rejected_in_check_spend() {
    let proof = dummy_proof();
    let vk = dummy_verifying_key(7);
    let good_key = PublicKey(spend_auth_generator() * jubjub::Fr::from(7));
    let sig = Signature { rbar: [0u8; 32], sbar: [0u8; 32] };
    let anchor = bls12_381::Scalar::from(11u64);

    for bad in [jubjub::ExtendedPoint::identity(), order_two_point()] {
        let mut ctx = SaplingVerificationContext::new(true);
        // Small-order value commitment.
        assert!(!ctx.check_spend(
            bad,
            anchor,
            &[0u8; 32],
            PublicKey(good_key.0),
            &[0u8; 32],
            sig,
            &proof,
            &vk,
        ));
        // Small-order verification key.
        assert!(!ctx.check_spend(
            value_commitment_randomness_generator(),
            anchor,
            &[0u8; 32],
            PublicKey(bad),
            &[0u8; 32],
            sig,
            &proof,
            &vk,
        ));
        // Neither rejection touched the running sum.
        assert_eq!(ctx.cv_sum, jubjub::ExtendedPoint::identity());
    }
}

#[test]
fn small_order_points_rejected_in_check_output() {
    let proof = dummy_proof();
    let vk = dummy_verifying_key(5);
    let cmu = bls12_381::Scalar::from(3u64);
    let good_point = value_commitment_randomness_generator();

    for bad in [jubjub::ExtendedPoint::identity(), order_two_point()] {
        let mut ctx = SaplingVerificationContext::new(true);
        assert!(!ctx.check_output(bad, cmu, good_point, &proof, &vk));
        assert!(!ctx.check_output(good_point, cmu, bad, &proof, &vk));
        assert_eq!(ctx.cv_sum, jubjub::ExtendedPoint::identity());
    }
}

#[test]
fn binding_signature_proves_value_conservation() {
    let proof = dummy_proof();
    let spend_vk = dummy_verifying_key(7);
    let output_vk = dummy_verifying_key(5);
    let v_gen = value_commitment_value_generator();
    let r_gen = value_commitment_randomness_generator();
    let sighash = [7u8; 32];

    let mut ctx = SaplingVerificationContext::new(true);

    // One spend of value 5 with blinding 77, one output of value 3 with
    // blinding 13: the declared balance is 2 and the binding secret is 64.
    let cv_spend = v_gen * jubjub::Fr::from(5) + r_gen * jubjub::Fr::from(77);
    let cv_output = v_gen * jubjub::Fr::from(3) + r_gen * jubjub::Fr::from(13);

    // The dummy proof fails, but the value commitments still accumulate.
    let ask = jubjub::Fr::from(4242);
    let rk = PublicKey(spend_auth_generator() * ask);
    let spend_sig = sign(ask, spend_auth_generator(), rk.0.to_bytes(), &sighash, 6789);
    assert!(!ctx.check_spend(
        cv_spend,
        bls12_381::Scalar::from(11u64),
        &[2u8; 32],
        rk,
        &sighash,
        spend_sig,
        &proof,
        &spend_vk,
    ));
    assert!(!ctx.check_output(
        cv_output,
        bls12_381::Scalar::from(3u64),
        r_gen * jubjub::Fr::from(9),
        &proof,
        &output_vk,
    ));

    let bsk = jubjub::Fr::from(64);
    let bvk = r_gen * bsk;
    assert_eq!(ctx.cv_sum - v_gen * jubjub::Fr::from(2), bvk);

    let binding_sig = sign(bsk, r_gen, bvk.to_bytes(), &sighash, 31337);
    // The declared balance matches the committed values: accepted.
    assert!(ctx.final_check(2, &sighash, binding_sig));
    // One unit off: rejected.
    assert!(!ctx.final_check(3, &sighash, binding_sig));
    assert!(!ctx.final_check(1, &sighash, binding_sig));
    // A wrong sighash is rejected too.
    assert!(!ctx.final_check(2, &[8u8; 32], binding_sig));
}

#[test]
fn accumulator_is_order_independent() {
    let proof = dummy_proof();
    let spend_vk = dummy_verifying_key(7);
    let output_vk = dummy_verifying_key(5);
    let v_gen = value_commitment_value_generator();
    let r_gen = value_commitment_randomness_generator();
    let sighash = [9u8; 32];
    let rk = PublicKey(spend_auth_generator() * jubjub::Fr::from(5));
    let sig = Signature { rbar: [0u8; 32], sbar: [0u8; 32] };

    let spends = [
        v_gen * jubjub::Fr::from(5) + r_gen * jubjub::Fr::from(77),
        v_gen * jubjub::Fr::from(1) + r_gen * jubjub::Fr::from(20),
        v_gen * jubjub::Fr::from(8) + r_gen * jubjub::Fr::from(41),
    ];
    let outputs = [
        v_gen * jubjub::Fr::from(6) + r_gen * jubjub::Fr::from(12),
        v_gen * jubjub::Fr::from(2) + r_gen * jubjub::Fr::from(90),
    ];

    let mut first = SaplingVerificationContext::new(true);
    for cv in [spends[0], spends[1], spends[2]] {
        first.check_spend(
            cv,
            bls12_381::Scalar::from(1u64),
            &[0u8; 32],
            PublicKey(rk.0),
            &sighash,
            sig,
            &proof,
            &spend_vk,
        );
    }
    for cv in [outputs[0], outputs[1]] {
        first.check_output(cv, bls12_381::Scalar::from(2u64), r_gen, &proof, &output_vk);
    }

    // The same descriptions, with spend order and output order permuted
    // and the categories interleaved.
    let mut second = SaplingVerificationContext::new(true);
    second.check_output(outputs[1], bls12_381::Scalar::from(2u64), r_gen, &proof, &output_vk);
    for cv in [spends[2], spends[0], spends[1]] {
        second.check_spend(
            cv,
            bls12_381::Scalar::from(1u64),
            &[0u8; 32],
            PublicKey(rk.0),
            &sighash,
            sig,
            &proof,
            &spend_vk,
        );
    }
    second.check_output(outputs[0], bls12_381::Scalar::from(2u64), r_gen, &proof, &output_vk);

    assert_eq!(first.cv_sum, second.cv_sum);

    // And therefore the final check decides the same way on both.
    // Blinding sums: 77 + 20 + 41 - 12 - 90 = 36; values: 5 + 1 + 8 - 6 - 2 = 6.
    let bsk = jubjub::Fr::from(36);
    let balance: i64 = 6;
    let bvk = first.cv_sum - v_gen * jubjub::Fr::from(balance as u64);
    let binding_sig = sign(bsk, r_gen, bvk.to_bytes(), &sighash, 99);
    assert_eq!(
        first.final_check(balance, &sighash, binding_sig),
        second.final_check(balance, &sighash, binding_sig),
    );
}

#[test]
fn out_of_range_balance_is_rejected_without_fault() {
    let ctx = SaplingVerificationContext::new(true);
    let sig = Signature { rbar: [0u8; 32], sbar: [0u8; 32] };
    assert!(!ctx.final_check(i64::MAX, &[0u8; 32], sig));
    assert!(!ctx.final_check(i64::MIN, &[0u8; 32], sig));
    assert!(!ctx.final_check(MAX_MONEY + 1, &[0u8; 32], sig));
    assert!(!ctx.final_check(-MAX_MONEY - 1, &[0u8; 32], sig));
}

#[test]
fn balanced_empty_transaction_verifies_with_zero_balance() {
    let ctx = SaplingVerificationContext::new(true);
    let r_gen = value_commitment_randomness_generator();
    let sighash = [5u8; 32];
    // No spends and no outputs: the binding key is the identity and the
    // binding secret is zero.
    let bvk = jubjub::ExtendedPoint::identity();
    let binding_sig = sign(jubjub::Fr::zero(), r_gen, bvk.to_bytes(), &sighash, 424242);
    assert!(ctx.final_check(0, &sighash, binding_sig));
    assert!(!ctx.final_check(1, &sighash, binding_sig));
}

#[test]
fn legacy_signature_encoding_follows_the_policy_flag() {
    // A binding signature over the zero secret whose commitment point is
    // the identity, encoded non-canonically: the sign bit is set on the
    // encoding of (0, 1). The legacy rules accept it, the canonical rules
    // do not.
    let sighash = [1u8; 32];
    let bvk = jubjub::ExtendedPoint::identity();
    let mut rbar = bvk.to_bytes();
    rbar[31] |= 0x80;
    let mut message = [0u8; 64];
    message[..32].copy_from_slice(&bvk.to_bytes());
    message[32..].copy_from_slice(&sighash);
    let sig = Signature { rbar, sbar: jubjub::Fr::zero().to_bytes() };

    let legacy = SaplingVerificationContext::new(false);
    assert!(legacy.final_check(0, &sighash, sig));

    let canonical = SaplingVerificationContext::new(true);
    assert!(!canonical.final_check(0, &sighash, sig));
}

#[test]
fn signature_verification_detects_tampering() {
    let generator = spend_auth_generator();
    let sk = jubjub::Fr::from(1234);
    let vk = PublicKey(generator * sk);
    let sighash = [3u8; 32];
    let sig = sign(sk, generator, vk.0.to_bytes(), &sighash, 5555);

    let mut message = [0u8; 64];
    message[..32].copy_from_slice(&vk.0.to_bytes());
    message[32..].copy_from_slice(&sighash);
    assert!(vk.verify_with_zip216(&message, &sig, &generator, true));

    // A flipped message bit invalidates the signature.
    let mut tampered = message;
    tampered[40] ^= 1;
    assert!(!vk.verify_with_zip216(&tampered, &sig, &generator, true));

    // A response scalar at the group order is rejected as non-canonical.
    let bad_s = Signature { rbar: sig.rbar, sbar: [0xffu8; 32] };
    assert!(!vk.verify_with_zip216(&message, &bad_s, &generator, true));

    // A wrong key does not verify.
    let other = PublicKey(generator * jubjub::Fr::from(4321));
    assert!(!other.verify_with_zip216(&message, &sig, &generator, true));
}

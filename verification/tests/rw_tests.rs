use cc_snark::api::rw::{
    read_pk, read_processed_vk, read_vk, write_pk, write_processed_vk, write_vk,
};
use cc_snark::cc_gro::data_structures::{
    PreparedVerifyingKey, Proof, ProvingKey, VerifyingKey,
};
use cc_snark::cc_gro::verifying::{prepare_verifying_key, CcGroth16};
use cc_snark::curve::{G1Point, G2Point};
use cc_snark::encoding::{decode_g1, decode_g2, decode_gt, encode_g1, encode_g2, encode_gt};
use cc_snark::error::SynthesisError;
use cc_snark::field::{Fq, Fr};
use cc_snark::r1cs::ConstraintSystem;
use rand::rngs::StdRng;
use rand::SeedableRng;

fn toy(a: Option<u64>, b: Option<u64>) -> ConstraintSystem {
    let mut cs = ConstraintSystem::new();
    let c = match (a, b) {
        (Some(a), Some(b)) => Some(Fr::from_u64(a * b)),
        _ => None,
    };
    let c_var = cs.allocate_public(c);
    let a_var = cs.allocate_committed_witness(a.map(Fr::from_u64));
    let b_var = cs.allocate_private_witness(b.map(Fr::from_u64));
    cs.enforce(
        vec![(Fr::one(), a_var)],
        vec![(Fr::one(), b_var)],
        vec![(Fr::one(), c_var)],
    );
    cs
}

fn keys_and_proof() -> (CcGroth16, ProvingKey, VerifyingKey, Proof) {
    let mut rng = StdRng::seed_from_u64(42);
    let system = CcGroth16::new(1);
    let (pk, vk) = system.setup(&toy(None, None), &mut rng).unwrap();
    let proof = system.prove(&pk, &toy(Some(3), Some(4)), &mut rng).unwrap();
    (system, pk, vk, proof)
}

#[test]
fn round_trip_of_key_and_proof_keeps_verification() {
    let (system, _, vk, proof) = keys_and_proof();
    for compressed in [false, true] {
        let vk2 =
            VerifyingKey::deserialize_with_mode(&vk.serialize_with_mode(compressed), compressed)
                .unwrap();
        let proof2 =
            Proof::deserialize_with_mode(&proof.serialize_with_mode(compressed), compressed)
                .unwrap();
        assert_eq!(vk2, vk);
        assert_eq!(proof2, proof);
        assert_eq!(system.verify(&vk2, &[Fr::from_u64(12)], &proof2), Ok(true));
        assert_eq!(system.verify(&vk2, &[Fr::from_u64(13)], &proof2), Ok(false));
    }
}

#[test]
fn round_trip_of_prepared_and_proving_key() {
    let (system, pk, vk, proof) = keys_and_proof();
    let pvk = prepare_verifying_key(&vk);
    for compressed in [false, true] {
        let bytes = pvk.serialize_with_mode(compressed);
        let pvk2 = PreparedVerifyingKey::deserialize_with_mode(&bytes, compressed).unwrap();
        assert_eq!(pvk2, pvk);
        assert_eq!(system.verify_proof(&pvk2, &proof, &[Fr::from_u64(12)]), Ok(true));
        let bytes = pk.serialize_with_mode(compressed);
        let pk2 = ProvingKey::deserialize_with_mode(&bytes, &pk.layout(), compressed).unwrap();
        assert_eq!(pk2, pk);
        let mut rng = StdRng::seed_from_u64(1);
        let again = system.prove(&pk2, &toy(Some(3), Some(4)), &mut rng).unwrap();
        assert_eq!(system.verify(&vk, &[Fr::from_u64(12)], &again), Ok(true));
    }
}

#[test]
fn files_are_written_uncompressed() {
    let (_, pk, vk, _) = keys_and_proof();
    let pvk = prepare_verifying_key(&vk);
    assert_eq!(write_vk(&vk), vk.serialize_with_mode(false));
    assert_eq!(write_vk(&vk).len(), 64 + 3 * 128 + 3 * 64);
    assert_eq!(write_processed_vk(&pvk).len(), 64 + 3 * 128 + 3 * 64 + 384 + 2 * 128);
    assert_eq!(write_pk(&pk).len(), write_vk(&vk).len() + 4 * 64 + 4 * 64 * 2 + 4 * 128 + 3 * 64 + 64);
    assert_eq!(read_vk(&write_vk(&vk)), Ok(vk.clone()));
    assert_eq!(read_processed_vk(&write_processed_vk(&pvk)), Ok(pvk));
    assert_eq!(read_pk(&write_pk(&pk), &pk.layout()), Ok(pk));
}

#[test]
fn encodings_have_their_fixed_sizes() {
    let g = G1Point::generator();
    let h = G2Point::generator();
    assert_eq!(encode_g1(&g, true).len(), 32);
    assert_eq!(encode_g1(&g, false).len(), 64);
    assert_eq!(encode_g2(&h, true).len(), 64);
    assert_eq!(encode_g2(&h, false).len(), 128);
    let mut expected = vec![0u8; 64];
    expected[0] = 1;
    expected[32] = 2;
    assert_eq!(encode_g1(&g, false), expected);
    let e = cc_snark::curve::pairing(&g, &h).unwrap();
    assert_eq!(encode_gt(&e).len(), 384);
    assert_eq!(decode_gt(&encode_gt(&e)), Some(e));
    assert_eq!(decode_g1(&encode_g1(&g, true), true), Some(g));
    assert_eq!(decode_g2(&encode_g2(&h, false), false), Some(h));
    assert_eq!(decode_g1(&encode_g1(&G1Point::identity(), true), true), Some(G1Point::identity()));
}

#[test]
fn points_off_the_curve_are_refused() {
    let off = G1Point { x: Fq::from_u64(1), y: Fq::from_u64(3), infinity: false };
    assert!(!off.is_on_curve());
    assert!(G1Point::generator().is_on_curve());
    assert!(G2Point::generator().is_in_group());
    let bytes = encode_g1(&off, false);
    assert_eq!(decode_g1(&bytes, false), None);
    let (_, _, _, proof) = keys_and_proof();
    let mut bytes = proof.serialize_with_mode(false);
    bytes[0] ^= 1;
    assert_eq!(
        Proof::deserialize_with_mode(&bytes, false),
        Err(SynthesisError::SerializationError)
    );
}

#[test]
fn wrong_lengths_are_refused() {
    let (_, pk, vk, proof) = keys_and_proof();
    let mut bytes = proof.serialize_with_mode(true);
    assert_eq!(bytes.len(), 3 * 32 + 64);
    bytes.pop();
    assert_eq!(Proof::deserialize_with_mode(&bytes, true), Err(SynthesisError::SerializationError));
    assert_eq!(
        Proof::deserialize_with_mode(&proof.serialize_with_mode(true), false),
        Err(SynthesisError::SerializationError)
    );
    let mut bytes = write_vk(&vk);
    bytes.push(0);
    assert_eq!(read_vk(&bytes), Err(SynthesisError::SerializationError));
    assert_eq!(read_vk(&[]), Err(SynthesisError::SerializationError));
    assert_eq!(read_processed_vk(&[0u8; 100]), Err(SynthesisError::SerializationError));
    let mut layout = pk.layout();
    layout.private += 1;
    assert_eq!(read_pk(&write_pk(&pk), &layout), Err(SynthesisError::SerializationError));
}

#[test]
fn key_with_fewer_bases_reads_back_and_is_malformed() {
    let (system, _, vk, proof) = keys_and_proof();
    let bytes = write_vk(&vk);
    let shorter = read_vk(&bytes[..bytes.len() - 64]).unwrap();
    assert_eq!(shorter.gamma_abc_g1.len(), 2);
    assert_eq!(
        system.verify(&shorter, &[Fr::from_u64(12)], &proof),
        Err(SynthesisError::MalformedVerifyingKey)
    );
}

use cc_snark::cc_gro::data_structures::{Proof, ProvingKey};
use cc_snark::cc_gro::generator::{
    keep_nonzero, keep_outside_domain, sample_nonzero, sample_outside_domain, Trapdoor,
};
use cc_snark::cc_gro::verifying::{prepare_verifying_key, try_prepare_verifying_key, CcGroth16};
use cc_snark::curve::{G1Point, G2Point};
use cc_snark::error::SynthesisError;
use cc_snark::field::Fr;
use cc_snark::r1cs::{ConstraintMatrices, ConstraintSystem};
use rand::rngs::StdRng;
use rand::SeedableRng;

fn product_circuit(a: Option<u64>, b: Option<u64>) -> ConstraintSystem {
    let mut cs = ConstraintSystem::new();
    let c = match (a, b) {
        (Some(a), Some(b)) => Some(Fr::from_u64(a * b)),
        _ => None,
    };
    let c_var = cs.allocate_public(c);
    let a_var = cs.allocate_committed_witness(a.map(Fr::from_u64));
    let b_var = cs.allocate_private_witness(b.map(Fr::from_u64));
    cs.enforce(
        vec![(Fr::one(), a_var)],
        vec![(Fr::one(), b_var)],
        vec![(Fr::one(), c_var)],
    );
    cs
}

fn fixed_trapdoor() -> Trapdoor {
    Trapdoor {
        alpha: Fr::from_u64(11),
        beta: Fr::from_u64(13),
        gamma: Fr::from_u64(17),
        delta: Fr::from_u64(19),
        eta: Fr::from_u64(23),
        tau: Fr::from_u64(29),
    }
}

fn fixed_key() -> (CcGroth16, ProvingKey, ConstraintMatrices) {
    let system = CcGroth16::new(1);
    let shape = product_circuit(None, None).finalize();
    let pk = system.generate_parameters_with_qap(&shape, &fixed_trapdoor()).unwrap();
    (system, pk, shape)
}

fn fixed_proof(system: &CcGroth16, pk: &ProvingKey, r: u64, s: u64, v: u64) -> Proof {
    let cs = product_circuit(Some(3), Some(4));
    let z = cs.assignment().unwrap();
    system
        .create_proof_with_reduction_and_matrices(
            pk,
            &Fr::from_u64(r),
            &Fr::from_u64(s),
            &Fr::from_u64(v),
            &cs.finalize(),
            &z,
        )
        .unwrap()
}

#[test]
fn proof_for_three_times_four_verifies_against_twelve() {
    let (system, pk, _) = fixed_key();
    let proof = fixed_proof(&system, &pk, 5, 7, 9);
    let pvk = prepare_verifying_key(&pk.vk);
    assert_eq!(system.verify_proof(&pvk, &proof, &[Fr::from_u64(12)]), Ok(true));
    assert_eq!(system.verify(&pk.vk, &[Fr::from_u64(12)], &proof), Ok(true));
    assert_eq!(system.verify_with_processed_vk(&pvk, &[Fr::from_u64(12)], &proof), Ok(true));
}

#[test]
fn proof_for_three_times_four_fails_against_thirteen() {
    let (system, pk, _) = fixed_key();
    let proof = fixed_proof(&system, &pk, 5, 7, 9);
    let pvk = try_prepare_verifying_key(&pk.vk).unwrap();
    assert_eq!(system.verify_proof(&pvk, &proof, &[Fr::from_u64(13)]), Ok(false));
}

#[test]
fn flipping_one_bit_of_the_public_input_fails_verification() {
    let (system, pk, _) = fixed_key();
    let proof = fixed_proof(&system, &pk, 5, 7, 9);
    let pvk = prepare_verifying_key(&pk.vk);
    for bit in 0..8u32 {
        let flipped = Fr::from_u64(12 ^ (1u64 << bit));
        assert_eq!(system.verify_proof(&pvk, &proof, &[flipped]), Ok(false));
    }
}

#[test]
fn unblinded_proof_verifies() {
    let (system, pk, _) = fixed_key();
    let proof = fixed_proof(&system, &pk, 0, 0, 0);
    let pvk = prepare_verifying_key(&pk.vk);
    assert_eq!(system.verify_proof(&pvk, &proof, &[Fr::from_u64(12)]), Ok(true));
}

#[test]
fn unblinded_commitment_is_the_witness_times_its_base() {
    let (system, pk, _) = fixed_key();
    let proof = fixed_proof(&system, &pk, 5, 7, 0);
    assert_eq!(proof.cm, pk.vk.gamma_abc_g1[2].mul(&Fr::from_u64(3)));
    let blinded = fixed_proof(&system, &pk, 5, 7, 9);
    assert_eq!(
        blinded.cm,
        proof.cm.add(&pk.eta_gamma_inv_g1.mul(&Fr::from_u64(9)))
    );
}

#[test]
fn tampered_elements_fail_verification() {
    let (system, pk, _) = fixed_key();
    let proof = fixed_proof(&system, &pk, 5, 7, 9);
    let pvk = prepare_verifying_key(&pk.vk);
    let inputs = [Fr::from_u64(12)];
    let g = G1Point::generator();
    let mut p = proof;
    p.a = p.a.add(&g);
    assert_eq!(system.verify_proof(&pvk, &p, &inputs), Ok(false));
    let mut p = proof;
    p.c = p.c.add(&g);
    assert_eq!(system.verify_proof(&pvk, &p, &inputs), Ok(false));
    let mut p = proof;
    p.cm = p.cm.add(&g);
    assert_eq!(system.verify_proof(&pvk, &p, &inputs), Ok(false));
    let mut p = proof;
    p.b = p.b.add(&G2Point::generator());
    assert_eq!(system.verify_proof(&pvk, &p, &inputs), Ok(false));
}

#[test]
fn fresh_key_has_one_base_per_instance_column() {
    let (_, pk, shape) = fixed_key();
    assert_eq!(pk.vk.gamma_abc_g1.len(), 1 + shape.num_public + shape.num_committed);
    assert_eq!(pk.vk.gamma_abc_g1.len(), 3);
    assert_eq!(pk.a_query.len(), 4);
    assert_eq!(pk.b_g1_query.len(), 4);
    assert_eq!(pk.b_g2_query.len(), 4);
    assert_eq!(pk.l_query.len(), 1);
    assert_eq!(pk.h_query.len(), 3);
}

#[test]
fn fixed_trapdoor_gives_the_keys_of_the_formulas() {
    let (_, pk, _) = fixed_key();
    let g = G1Point::generator();
    let h = G2Point::generator();
    assert_eq!(pk.vk.alpha_g1, g.mul(&Fr::from_u64(11)));
    assert_eq!(pk.vk.beta_g2, h.mul(&Fr::from_u64(13)));
    assert_eq!(pk.vk.gamma_g2, h.mul(&Fr::from_u64(17)));
    assert_eq!(pk.vk.delta_g2, h.mul(&Fr::from_u64(19)));
    assert_eq!(pk.beta_g1, g.mul(&Fr::from_u64(13)));
    assert_eq!(pk.delta_g1, g.mul(&Fr::from_u64(19)));
    let gamma_inverse = Fr::from_u64(17).inverse().unwrap();
    let delta_inverse = Fr::from_u64(19).inverse().unwrap();
    assert_eq!(pk.eta_gamma_inv_g1, g.mul(&Fr::from_u64(23).mul(&gamma_inverse)));
    assert_eq!(pk.eta_delta_inv_g1, g.mul(&Fr::from_u64(23).mul(&delta_inverse)));
}

#[test]
fn key_with_one_base_too_many_is_malformed() {
    let (system, pk, _) = fixed_key();
    let mut pvk = prepare_verifying_key(&pk.vk);
    let extra = pvk.vk.gamma_abc_g1[0];
    pvk.vk.gamma_abc_g1.push(extra);
    assert_eq!(
        system.prepare_inputs(&pvk, &[Fr::from_u64(12)]),
        Err(SynthesisError::MalformedVerifyingKey)
    );
}

#[test]
fn key_with_one_base_too_few_is_malformed() {
    let (system, pk, _) = fixed_key();
    let mut pvk = prepare_verifying_key(&pk.vk);
    pvk.vk.gamma_abc_g1.pop();
    assert_eq!(
        system.prepare_inputs(&pvk, &[Fr::from_u64(12)]),
        Err(SynthesisError::MalformedVerifyingKey)
    );
    let proof = fixed_proof(&system, &pk, 5, 7, 9);
    assert_eq!(
        system.verify_proof(&pvk, &proof, &[Fr::from_u64(12)]),
        Err(SynthesisError::MalformedVerifyingKey)
    );
}

#[test]
fn wrong_number_of_inputs_or_of_committed_witnesses_is_malformed() {
    let (system, pk, _) = fixed_key();
    let pvk = prepare_verifying_key(&pk.vk);
    assert_eq!(system.prepare_inputs(&pvk, &[]), Err(SynthesisError::MalformedVerifyingKey));
    assert_eq!(
        system.prepare_inputs(&pvk, &[Fr::one(), Fr::one()]),
        Err(SynthesisError::MalformedVerifyingKey)
    );
    assert_eq!(
        CcGroth16::new(2).prepare_inputs(&pvk, &[Fr::from_u64(12)]),
        Err(SynthesisError::MalformedVerifyingKey)
    );
    assert_eq!(
        CcGroth16::new(usize::MAX).prepare_inputs(&pvk, &[Fr::from_u64(12)]),
        Err(SynthesisError::MalformedVerifyingKey)
    );
    let mut empty = prepare_verifying_key(&pk.vk);
    empty.vk.gamma_abc_g1.clear();
    assert_eq!(
        CcGroth16::new(0).prepare_inputs(&empty, &[]),
        Err(SynthesisError::MalformedVerifyingKey)
    );
}

#[test]
fn prepared_inputs_are_the_constant_plus_the_inputs_times_their_bases() {
    let (system, pk, _) = fixed_key();
    let pvk = prepare_verifying_key(&pk.vk);
    let folded = system.prepare_inputs(&pvk, &[Fr::from_u64(12)]).unwrap();
    assert_eq!(
        folded,
        pk.vk.gamma_abc_g1[0].add(&pk.vk.gamma_abc_g1[1].mul(&Fr::from_u64(12)))
    );
    let proof = fixed_proof(&system, &pk, 5, 7, 9);
    assert_eq!(CcGroth16::verify_proof_with_prepared_inputs(&pvk, &proof, &folded), Ok(true));
}

#[test]
fn prepared_key_holds_the_pairing_and_the_inverses() {
    let (_, pk, _) = fixed_key();
    let pvk = prepare_verifying_key(&pk.vk);
    assert_eq!(pvk.vk, pk.vk);
    assert_eq!(pvk.gamma_g2_neg_pc, pk.vk.gamma_g2.neg());
    assert_eq!(pvk.delta_g2_neg_pc, pk.vk.delta_g2.neg());
    let e = cc_snark::curve::pairing(&pk.vk.alpha_g1, &pk.vk.beta_g2).unwrap();
    assert_eq!(pvk.alpha_g1_beta_g2, e);
    assert_eq!(CcGroth16::process_vk(&pk.vk), Ok(pvk));
}

#[test]
fn unsatisfied_assignment_has_no_proof() {
    let (system, pk, shape) = fixed_key();
    let z = vec![Fr::one(), Fr::from_u64(13), Fr::from_u64(3), Fr::from_u64(4)];
    let r = system.create_proof_with_reduction_and_matrices(
        &pk,
        &Fr::from_u64(5),
        &Fr::from_u64(7),
        &Fr::from_u64(9),
        &shape,
        &z,
    );
    assert_eq!(r, Err(SynthesisError::Unsatisfiable));
}

#[test]
fn missing_assignment_is_reported() {
    let (system, pk, _) = fixed_key();
    let mut rng = StdRng::seed_from_u64(3);
    let cs = product_circuit(None, None);
    assert_eq!(system.prove(&pk, &cs, &mut rng), Err(SynthesisError::AssignmentMissing));
}

#[test]
fn key_of_another_circuit_is_a_shape_mismatch() {
    let (system, pk, _) = fixed_key();
    let mut rng = StdRng::seed_from_u64(3);
    let mut cs = product_circuit(Some(3), Some(4));
    cs.allocate_private_witness(Some(Fr::one()));
    assert_eq!(system.prove(&pk, &cs, &mut rng), Err(SynthesisError::ConstraintShapeMismatch));
    let cs = product_circuit(Some(3), Some(4));
    assert_eq!(
        CcGroth16::new(2).prove(&pk, &cs, &mut rng),
        Err(SynthesisError::ConstraintShapeMismatch)
    );
    assert_eq!(
        CcGroth16::new(2).setup(&cs, &mut rng).err(),
        Some(SynthesisError::ConstraintShapeMismatch)
    );
}

#[test]
fn trapdoor_with_a_zero_is_refused() {
    let system = CcGroth16::new(1);
    let shape = product_circuit(None, None).finalize();
    let mut t = fixed_trapdoor();
    t.gamma = Fr::zero();
    assert_eq!(
        system.generate_parameters_with_qap(&shape, &t),
        Err(SynthesisError::UnexpectedIdentity)
    );
    let mut t = fixed_trapdoor();
    t.eta = Fr::zero();
    assert_eq!(
        system.generate_parameters_with_qap(&shape, &t),
        Err(SynthesisError::UnexpectedIdentity)
    );
    let mut t = fixed_trapdoor();
    t.tau = Fr::one();
    assert_eq!(
        system.generate_parameters_with_qap(&shape, &t),
        Err(SynthesisError::UnexpectedIdentity)
    );
}

#[test]
fn samples_are_never_zero_nor_in_the_domain() {
    let mut rng = StdRng::seed_from_u64(5);
    for _ in 0..20 {
        assert!(!sample_nonzero(&mut rng).unwrap().is_zero());
        let t = sample_outside_domain(4, &mut rng).unwrap();
        let t4 = t.mul(&t).mul(&t).mul(&t);
        assert_ne!(t4, Fr::one());
    }
}

#[test]
fn random_setup_and_proof_verify_for_every_seed() {
    for seed in 0..3u64 {
        let mut rng = StdRng::seed_from_u64(seed);
        let system = CcGroth16::new(1);
        let (pk, vk) = system.setup(&product_circuit(None, None), &mut rng).unwrap();
        assert_eq!(vk, pk.vk);
        assert_eq!(vk.gamma_abc_g1.len(), 3);
        let proof = system.prove(&pk, &product_circuit(Some(3), Some(4)), &mut rng).unwrap();
        assert_eq!(system.verify(&vk, &[Fr::from_u64(12)], &proof), Ok(true));
        assert_eq!(system.verify(&vk, &[Fr::from_u64(13)], &proof), Ok(false));
    }
}

#[test]
fn two_proofs_of_one_witness_differ_and_both_verify() {
    let mut rng = StdRng::seed_from_u64(21);
    let system = CcGroth16::new(1);
    let (pk, vk) = system.setup(&product_circuit(None, None), &mut rng).unwrap();
    let cs = product_circuit(Some(3), Some(4));
    let first = system.prove(&pk, &cs, &mut rng).unwrap();
    let second = system.prove(&pk, &cs, &mut rng).unwrap();
    assert_ne!(first.a, second.a);
    assert_ne!(first.b, second.b);
    assert_ne!(first.c, second.c);
    assert_ne!(first.cm, second.cm);
    assert_ne!(first.serialize_with_mode(true), second.serialize_with_mode(true));
    assert_eq!(system.verify(&vk, &[Fr::from_u64(12)], &first), Ok(true));
    assert_eq!(system.verify(&vk, &[Fr::from_u64(12)], &second), Ok(true));
}

#[test]
fn other_committed_witness_gives_another_commitment() {
    let (system, pk, _) = fixed_key();
    let first = fixed_proof(&system, &pk, 5, 7, 9);
    let cs = product_circuit(Some(6), Some(2));
    let z = cs.assignment().unwrap();
    let second = system
        .create_proof_with_reduction_and_matrices(
            &pk,
            &Fr::from_u64(5),
            &Fr::from_u64(7),
            &Fr::from_u64(9),
            &cs.finalize(),
            &z,
        )
        .unwrap();
    assert_ne!(first.cm, second.cm);
    let pvk = prepare_verifying_key(&pk.vk);
    let inputs = [Fr::from_u64(12)];
    assert_eq!(system.verify_proof(&pvk, &first, &inputs), Ok(true));
    assert_eq!(system.verify_proof(&pvk, &second, &inputs), Ok(true));
    let expected = pk.vk.gamma_abc_g1[2]
        .mul(&Fr::from_u64(3))
        .add(&pk.eta_gamma_inv_g1.mul(&Fr::from_u64(9)));
    assert_eq!(first.cm, expected);
    assert_ne!(second.cm, expected);
    let mut swapped = first;
    swapped.cm = second.cm;
    assert_eq!(system.verify_proof(&pvk, &swapped, &inputs), Ok(false));
}

fn test_circuit(a: Option<Fr>, b: Option<Fr>, test: [Option<Fr>; 2]) -> ConstraintSystem {
    let mut cs = ConstraintSystem::new();
    let a_var = cs.allocate_private_witness(a);
    let b_var = cs.allocate_private_witness(b);
    let c = match (a, b) {
        (Some(a), Some(b)) => Some(a.mul(&b)),
        _ => None,
    };
    let c_var = cs.allocate_committed_witness(c);
    for t in test.iter() {
        cs.allocate_committed_witness(*t);
    }
    for _ in 0..6 {
        cs.enforce(
            vec![(Fr::one(), a_var)],
            vec![(Fr::one(), b_var)],
            vec![(Fr::one(), c_var)],
        );
    }
    cs
}

fn test_prove_and_verify(n_iters: usize) {
    let mut rng = StdRng::seed_from_u64(0x5eed);
    let system = CcGroth16::new(3);
    let (pk, vk) = system.setup(&test_circuit(None, None, [None; 2]), &mut rng).unwrap();
    let pvk = prepare_verifying_key(&vk);
    for _ in 0..n_iters {
        let a = Fr::rand(&mut rng);
        let b = Fr::rand(&mut rng);
        let test = [Some(Fr::rand(&mut rng)); 2];
        let proof = system.prove(&pk, &test_circuit(Some(a), Some(b), test), &mut rng).unwrap();
        assert!(system.verify_with_processed_vk(&pvk, &[], &proof).unwrap());
    }
}

#[test]
fn prove_and_verify() {
    test_prove_and_verify(1);
}

#[test]
fn a_zero_draw_is_thrown_away() {
    assert_eq!(keep_nonzero(Fr::zero()), None);
    // The order of the field itself: another way to write zero.
    let order = Fr {
        limbs: [0x43e1f593f0000001, 0x2833e84879b97091, 0xb85045b68181585d, 0x30644e72e131a029],
    };
    assert_eq!(keep_nonzero(order), None);
}

#[test]
fn a_nonzero_draw_is_kept_as_it_is() {
    assert_eq!(keep_nonzero(Fr::from_u64(7)), Some(Fr::from_u64(7)));
    assert_eq!(keep_nonzero(Fr::one()), Some(Fr::one()));
}

#[test]
fn a_draw_inside_the_domain_is_thrown_away() {
    // One is in every domain, and minus one in every domain of even size.
    assert_eq!(keep_outside_domain(4, Fr::one()), None);
    let minus_one = Fr::zero().sub(&Fr::one());
    assert_eq!(keep_outside_domain(4, minus_one), None);
    assert_eq!(keep_outside_domain(1, Fr::one()), None);
}

#[test]
fn a_draw_outside_the_domain_is_kept_as_it_is() {
    assert_eq!(keep_outside_domain(4, Fr::from_u64(2)), Some(Fr::from_u64(2)));
    assert_eq!(keep_outside_domain(1, Fr::zero()), Some(Fr::zero()));
    let minus_one = Fr::zero().sub(&Fr::one());
    assert_eq!(keep_outside_domain(1, minus_one), Some(minus_one));
}

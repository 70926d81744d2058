use cc_snark::api::cc_groth16::commitment::CommitmentWrapper;
use cc_snark::api::cc_groth16::proofs::ProofWrapper;
use cc_snark::api::rw::KeyLayout;
use cc_snark::cc_gro::generator::Trapdoor;
use cc_snark::cc_gro::verifying::CcGroth16;
use cc_snark::curve::G1Point;
use cc_snark::error::SynthesisError;
use cc_snark::field::Fr;
use cc_snark::gadget::merkle_tree::mocking::select_left_right_child;
use cc_snark::r1cs::{
    column_count, row_is_in_range, rows_in_range, ConstraintMatrices, ConstraintSystem,
};
use rand::rngs::StdRng;
use rand::SeedableRng;

fn f(v: u64) -> Fr {
    Fr::from_u64(v)
}

/// `a * b = c` with `c` public and `a`, `b` private.
fn plain_product(a: Option<u64>, b: Option<u64>) -> ConstraintSystem {
    let mut cs = ConstraintSystem::new();
    let c = match (a, b) {
        (Some(a), Some(b)) => Some(f(a * b)),
        _ => None,
    };
    let c_var = cs.allocate_public(c);
    let a_var = cs.allocate_private_witness(a.map(f));
    let b_var = cs.allocate_private_witness(b.map(f));
    cs.enforce(vec![(Fr::one(), a_var)], vec![(Fr::one(), b_var)], vec![(Fr::one(), c_var)]);
    cs
}

fn trapdoor() -> Trapdoor {
    Trapdoor { alpha: f(11), beta: f(13), gamma: f(17), delta: f(19), eta: f(23), tau: f(29) }
}

fn matrices() -> ConstraintMatrices {
    ConstraintMatrices {
        num_public: 1,
        num_committed: 1,
        num_private: 1,
        a: vec![vec![(f(1), 2)], vec![(f(2), 0), (f(3), 3)]],
        b: vec![vec![(f(1), 3)], vec![]],
        c: vec![vec![(f(1), 1)], vec![(f(5), 1)]],
    }
}

#[test]
fn matrices_with_rows_of_named_columns_are_well_formed() {
    assert!(matrices().is_well_formed());
    assert!(plain_product(None, None).finalize().is_well_formed());
    let empty = ConstraintMatrices {
        num_public: 0,
        num_committed: 0,
        num_private: 0,
        a: vec![],
        b: vec![],
        c: vec![],
    };
    assert!(empty.is_well_formed());
}

#[test]
fn matrices_with_rows_missing_are_not_well_formed() {
    let mut m = matrices();
    m.b.pop();
    assert!(!m.is_well_formed());
    let mut m = matrices();
    m.c.push(vec![]);
    assert!(!m.is_well_formed());
}

#[test]
fn matrices_that_name_a_column_too_far_are_not_well_formed() {
    let mut m = matrices();
    m.a[1][1].1 = 4;
    assert!(!m.is_well_formed());
    let mut m = matrices();
    m.b[0][0].1 = 4;
    assert!(!m.is_well_formed());
    let mut m = matrices();
    m.c[1][0].1 = usize::MAX;
    assert!(!m.is_well_formed());
    let mut m = matrices();
    m.num_private = 0;
    assert!(!m.is_well_formed());
}

#[test]
fn matrices_with_more_columns_than_the_machine_counts_are_not_well_formed() {
    let mut m = matrices();
    m.num_private = usize::MAX;
    assert!(!m.is_well_formed());
    let mut m = matrices();
    m.num_public = usize::MAX - 2;
    assert!(!m.is_well_formed());
}

#[test]
fn columns_are_counted_with_the_constant() {
    assert_eq!(column_count(0, 0, 0), Some(1));
    assert_eq!(column_count(2, 3, 4), Some(10));
    assert_eq!(column_count(usize::MAX - 1, 0, 0), Some(usize::MAX));
    assert_eq!(column_count(usize::MAX, 0, 0), None);
    assert_eq!(column_count(usize::MAX - 1, 1, 0), None);
    assert_eq!(column_count(1, 1, usize::MAX - 2), None);
    assert_eq!(column_count(1, 1, usize::MAX - 3), Some(usize::MAX));
}

#[test]
fn rows_are_in_range_when_every_term_is() {
    assert!(row_is_in_range(&vec![], 0));
    assert!(row_is_in_range(&vec![(f(1), 0), (f(1), 2)], 3));
    assert!(!row_is_in_range(&vec![(f(1), 0), (f(1), 3)], 3));
    assert!(rows_in_range(&vec![], 0));
    assert!(rows_in_range(&vec![vec![(f(1), 1)], vec![]], 2));
    assert!(!rows_in_range(&vec![vec![(f(1), 1)], vec![(f(0), 2)]], 2));
}

#[test]
fn keys_without_the_point_at_infinity_have_coordinates() {
    let system = CcGroth16::new(0);
    let shape = plain_product(None, None).finalize();
    let pk = system.generate_parameters_with_qap(&shape, &trapdoor()).unwrap();
    assert!(pk.vk.has_coordinates());
    let mut vk = pk.vk.clone();
    vk.gamma_abc_g1[1] = G1Point::identity();
    assert!(!vk.has_coordinates());
    let mut vk = pk.vk.clone();
    vk.alpha_g1 = G1Point::identity();
    assert!(!vk.has_coordinates());
    let mut vk = pk.vk.clone();
    vk.delta_g2.infinity = true;
    assert!(!vk.has_coordinates());
}

#[test]
fn layout_of_a_circuit_is_the_layout_of_its_keys() {
    let system = CcGroth16::new(0);
    let shape = plain_product(None, None).finalize();
    let pk = system.generate_parameters_with_qap(&shape, &trapdoor()).unwrap();
    let layout = KeyLayout::of(&shape).unwrap();
    assert_eq!(layout, pk.layout());
    // One constraint and two instance columns: a domain of four rows.
    assert_eq!(layout, KeyLayout { instance: 2, columns: 4, quotient: 3, private: 2 });
    let mut rng = StdRng::seed_from_u64(5);
    let drawn = system.generate_random_parameters_with_reduction(&shape, &mut rng).unwrap();
    assert_eq!(drawn.layout(), layout);
}

#[test]
fn layout_counts_committed_witnesses_with_the_instance() {
    let layout = KeyLayout::of(&matrices()).unwrap();
    assert_eq!(layout, KeyLayout { instance: 3, columns: 4, quotient: 7, private: 1 });
}

#[test]
fn setup_refuses_a_circuit_of_another_shape() {
    let mut rng = StdRng::seed_from_u64(6);
    let cs = plain_product(None, None);
    assert_eq!(
        CcGroth16::new(1).setup(&cs, &mut rng).err(),
        Some(SynthesisError::ConstraintShapeMismatch)
    );
    let (pk, vk) = CcGroth16::new(0).setup(&cs, &mut rng).unwrap();
    assert_eq!(vk, pk.vk);
    assert_eq!(vk.gamma_abc_g1.len(), 2);
}

#[test]
fn children_are_clones_in_the_order_left_right() {
    let node = String::from("node");
    let sibling = String::from("sibling");
    assert_eq!(
        select_left_right_child(6, &node, &sibling),
        Ok((String::from("node"), String::from("sibling")))
    );
    assert_eq!(
        select_left_right_child(7, &node, &sibling),
        Ok((String::from("sibling"), String::from("node")))
    );
    assert_eq!(select_left_right_child(1, &vec![1u8], &vec![2u8, 3u8]), Ok((vec![2, 3], vec![1])));
}

#[test]
fn proof_without_commitment_travels_as_three_elements() {
    let system = CcGroth16::new(0);
    let shape = plain_product(None, None).finalize();
    let pk = system.generate_parameters_with_qap(&shape, &trapdoor()).unwrap();
    let cs = plain_product(Some(3), Some(4));
    let z = cs.assignment().unwrap();
    let proof = system
        .create_proof_with_reduction_and_matrices(&pk, &f(5), &f(7), &Fr::zero(), &cs.finalize(), &z)
        .unwrap();
    assert!(proof.cm.same_value(&G1Point::identity()));

    let fields = ProofWrapper::new(&proof).to_fields();
    let commitment = CommitmentWrapper::new(&G1Point::identity());
    let read = ProofWrapper::from_fields(&fields, &commitment).unwrap().into_proof();
    assert_eq!(read.a, proof.a);
    assert_eq!(read.b, proof.b);
    assert_eq!(read.c, proof.c);
    assert_eq!(system.verify(&pk.vk, &[f(12)], &read), Ok(true));
    assert_eq!(system.verify(&pk.vk, &[f(13)], &read), Ok(false));
}

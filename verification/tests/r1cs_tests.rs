use cc_snark::cc_gro::r1cs_to_qap::{
    evaluate_vanishing_polynomial, evaluation_domain_size, h_query_scalars,
    instance_map_with_evaluation, witness_map_from_matrices,
};
use cc_snark::error::SynthesisError;
use cc_snark::field::Fr;
use cc_snark::r1cs::{evaluate_constraint, ConstraintMatrices, ConstraintSystem, Variable};

fn f(v: u64) -> Fr {
    Fr::from_u64(v)
}

fn two_constraints(values: Option<[u64; 4]>) -> ConstraintSystem {
    // x * y = p (public), (x + 2 y) * 3 = q (public)
    let mut cs = ConstraintSystem::new();
    let p = cs.allocate_public(values.map(|v| f(v[2])));
    let x = cs.allocate_private_witness(values.map(|v| f(v[0])));
    let q = cs.allocate_public(values.map(|v| f(v[3])));
    let y = cs.allocate_committed_witness(values.map(|v| f(v[1])));
    cs.enforce(vec![(f(1), x)], vec![(f(1), y)], vec![(f(1), p)]);
    cs.enforce(
        vec![(f(1), x), (f(2), y)],
        vec![(f(3), Variable::One)],
        vec![(f(1), q)],
    );
    cs
}

#[test]
fn variables_get_their_columns() {
    let cs = two_constraints(None);
    assert_eq!(cs.public.len(), 2);
    let m = cs.finalize();
    assert_eq!((m.num_public, m.num_committed, m.num_private), (2, 1, 1));
    assert_eq!(m.num_variables(), 5);
    assert_eq!(m.num_instance(), 4);
    assert_eq!(m.a, vec![vec![(f(1), 4)], vec![(f(1), 4), (f(2), 3)]]);
    assert_eq!(m.b, vec![vec![(f(1), 3)], vec![(f(3), 0)]]);
    assert_eq!(m.c, vec![vec![(f(1), 1)], vec![(f(1), 2)]]);
}

#[test]
fn allocation_returns_the_variable_by_kind_and_place() {
    let mut cs = ConstraintSystem::new();
    assert_eq!(cs.allocate_public(None), Variable::Public(0));
    assert_eq!(cs.allocate_private_witness(None), Variable::Private(0));
    assert_eq!(cs.allocate_public(None), Variable::Public(1));
    assert_eq!(cs.allocate_committed_witness(None), Variable::Committed(0));
    assert_eq!(cs.allocate_private_witness(None), Variable::Private(1));
}

#[test]
fn assignment_lists_one_public_committed_private() {
    let cs = two_constraints(Some([5, 7, 35, 57]));
    assert_eq!(cs.assignment(), Ok(vec![f(1), f(35), f(57), f(7), f(5)]));
    assert_eq!(cs.is_satisfied(), Ok(true));
    let cs = two_constraints(Some([5, 7, 35, 58]));
    assert_eq!(cs.is_satisfied(), Ok(false));
    let cs = two_constraints(None);
    assert_eq!(cs.assignment(), Err(SynthesisError::AssignmentMissing));
    assert_eq!(cs.is_satisfied(), Err(SynthesisError::AssignmentMissing));
}

#[test]
fn inner_products_are_taken_in_the_field() {
    let z = vec![f(1), f(10), f(100)];
    assert_eq!(evaluate_constraint(&vec![(f(2), 1), (f(3), 2), (f(4), 0)], &z), f(324));
    assert_eq!(evaluate_constraint(&Vec::new(), &z), f(0));
    let minus_one = Fr::zero().sub(&f(1));
    assert_eq!(evaluate_constraint(&vec![(minus_one, 1), (f(1), 1)], &z), f(0));
}

#[test]
fn domains_are_the_next_power_of_two() {
    assert_eq!(evaluation_domain_size(0), Some(1));
    assert_eq!(evaluation_domain_size(1), Some(1));
    assert_eq!(evaluation_domain_size(2), Some(2));
    assert_eq!(evaluation_domain_size(5), Some(8));
    assert_eq!(evaluation_domain_size(8), Some(8));
    assert_eq!(evaluation_domain_size(1 << 28), Some(1 << 28));
    assert_eq!(evaluation_domain_size((1 << 28) + 1), None);
}

#[test]
fn vanishing_polynomial_is_the_power_less_one() {
    assert_eq!(evaluate_vanishing_polynomial(4, &f(3)), f(80));
    assert_eq!(evaluate_vanishing_polynomial(1, &f(3)), f(2));
    assert_eq!(evaluate_vanishing_polynomial(8, &f(1)), f(0));
}

#[test]
fn quotient_scalars_are_powers_times_a_factor() {
    let s = h_query_scalars(4, &f(3), &f(5), &f(7));
    assert_eq!(s, vec![f(35), f(105), f(315), f(945)]);
    assert_eq!(h_query_scalars(0, &f(3), &f(5), &f(7)), Vec::<Fr>::new());
}

#[test]
fn instance_map_interpolates_the_constraints() {
    let m = two_constraints(None).finalize();
    let q = instance_map_with_evaluation(&m, &f(29)).unwrap();
    assert_eq!(q.domain_size, 8);
    assert_eq!(q.zt, evaluate_vanishing_polynomial(8, &f(29)));
    assert_eq!((q.a.len(), q.b.len(), q.c.len()), (5, 5, 5));
    // Column 0 of `b` holds 3 in the second constraint only: 3 * u_1(tau).
    // Column 3 of `b` holds 1 in the first constraint only: u_0(tau).
    // The Lagrange coefficients at a point of the domain are an indicator.
    let one = instance_map_with_evaluation(&m, &f(1)).unwrap();
    assert_eq!(one.b, vec![f(0), f(0), f(0), f(1), f(0)]);
    assert_eq!(one.c, vec![f(0), f(1), f(0), f(0), f(0)]);
    assert_eq!(one.a, vec![f(0), f(0), f(0), f(0), f(1)]);
}

#[test]
fn quotient_exists_for_satisfying_assignments_only() {
    let cs = two_constraints(Some([5, 7, 35, 57]));
    let m = cs.finalize();
    let h = witness_map_from_matrices(&m, &cs.assignment().unwrap()).unwrap();
    assert_eq!(h.len(), 8);
    assert_eq!(h[7], f(0));
    let bad = two_constraints(Some([5, 7, 36, 57]));
    assert_eq!(
        witness_map_from_matrices(&m, &bad.assignment().unwrap()),
        Err(SynthesisError::Unsatisfiable)
    );
}

#[test]
fn matrices_check_an_assignment() {
    let m: ConstraintMatrices = two_constraints(None).finalize();
    assert!(m.is_satisfied(&vec![f(1), f(35), f(57), f(7), f(5)]));
    assert!(!m.is_satisfied(&vec![f(1), f(35), f(57), f(7), f(6)]));
}

//! Proving: from a proving key and an assignment that meets the constraints
//! to the four elements of a proof.
use crate::cc_gro::data_structures::{Proof, ProofSpec, ProvingKey, ProvingKeySpec};
use crate::cc_gro::r1cs_to_qap::{domain_size_of, witness_map, witness_map_from_matrices};
use crate::cc_gro::verifying::CcGroth16;
use crate::curve::{
    g1_add, g1_identity, g1_msm, g1_mul, g1_negated, g1_views, g2_add, g2_mul,
    g2_sum_of_multiples, g2_views,
    msm_g1, msm_g2, G1Point, G1Spec, G2Point, G2Spec,
};
use crate::error::SynthesisError;
use crate::field::{fr_views, Fr};
use crate::r1cs::{ConstraintMatrices, ConstraintSystem};
use rand::rngs::StdRng;
use vstd::prelude::*;

verus! {

/// `initial + query[0] + sum(assignment[i] * query[i + 1]) + vk_param` in `G1`.
pub open spec fn coefficient_g1(initial: G1Spec, query: Seq<G1Spec>, vk_param: G1Spec, assignment: Seq<nat>) -> G1Spec {
    g1_add(
        g1_add(g1_add(initial, query[0]), g1_msm(query.subrange(1, query.len() as int), assignment)),
        vk_param,
    )
}

/// `initial + query[0] + sum(assignment[i] * query[i + 1]) + vk_param` in `G2`.
pub open spec fn coefficient_g2(initial: G2Spec, query: Seq<G2Spec>, vk_param: G2Spec, assignment: Seq<nat>) -> G2Spec {
    g2_add(
        g2_add(
            g2_add(initial, query[0]),
            g2_sum_of_multiples(query.subrange(1, query.len() as int), assignment, assignment.len()),
        ),
        vk_param,
    )
}

/// The proof that the key `pk` gives for the assignment `z` with quotient
/// coefficients `h`, blinded by `r` and `s`, with the commitment blinded by
/// `v`. Of the columns of `z`, the first `instance` are the constant, the
/// `public` public inputs and the committed witnesses.
///
/// `a` and `b` are the sums over the queries plus `alpha + r * delta` and
/// `beta + s * delta`. `cm` sums the committed witnesses over their bases in
/// the verifying key and adds `v` times the blinding base. `c` sums the
/// private witnesses and the quotient over their bases, adds `s * a + r * b`,
/// and takes away `r * s * delta` and the commitment's blinding.
pub open spec fn proof_value(
    pk: ProvingKeySpec,
    r: nat,
    s: nat,
    v: nat,
    h: Seq<nat>,
    z: Seq<nat>,
    instance: nat,
    public: nat,
) -> ProofSpec {
    let assignment = z.subrange(1, z.len() as int);
    let private = z.subrange(instance as int, z.len() as int);
    let committed = z.subrange(1 + public as int, instance as int);
    let h_acc = g1_msm(pk.h_query, h.subrange(0, pk.h_query.len() as int));
    let l_aux_acc = g1_msm(pk.l_query, private);
    let r_s_delta_g1 = g1_mul(g1_mul(pk.delta_g1, r), s);
    let g_a = coefficient_g1(g1_mul(pk.delta_g1, r), pk.a_query, pk.vk.alpha_g1, assignment);
    let s_g_a = g1_mul(g_a, s);
    let g1_b = if r != 0 {
        coefficient_g1(g1_mul(pk.delta_g1, s), pk.b_g1_query, pk.beta_g1, assignment)
    } else {
        g1_identity()
    };
    let g2_b = coefficient_g2(g2_mul(pk.vk.delta_g2, s), pk.b_g2_query, pk.vk.beta_g2, assignment);
    let r_g1_b = g1_mul(g1_b, r);
    let blinded = g1_add(
        g1_add(g1_add(g1_add(s_g_a, r_g1_b), g1_negated(r_s_delta_g1)), l_aux_acc),
        h_acc,
    );
    let g_c = g1_add(blinded, g1_negated(g1_mul(pk.eta_delta_inv_g1, v)));
    let cm = g1_add(
        g1_msm(pk.vk.gamma_abc_g1.subrange(1 + public as int, instance as int), committed),
        g1_mul(pk.eta_gamma_inv_g1, v),
    );
    ProofSpec { a: g_a, b: g2_b, c: g_c, cm }
}

/// Whether the key `pk` has the shape of the circuit `m` with an assignment
/// of `columns` values, for a system that commits to `committed` witnesses.
pub open spec fn key_fits(pk: ProvingKeySpec, committed: nat, m: ConstraintMatrices, columns: nat) -> bool {
    &&& m.num_committed == committed
    &&& columns == m.shape().num_variables()
    &&& pk.a_query.len() == columns
    &&& pk.b_g1_query.len() == columns
    &&& pk.b_g2_query.len() == columns
    &&& pk.vk.gamma_abc_g1.len() == m.shape().num_instance()
    &&& pk.l_query.len() == m.num_private
}

/// What proving answers for the key `pk`, the circuit `m` and the
/// assignment `z`: `ConstraintShapeMismatch` where the key does not fit the
/// circuit, the error of the quotient where there is none, else the proof.
pub open spec fn proving_outcome(
    pk: ProvingKeySpec,
    committed: nat,
    m: ConstraintMatrices,
    z: Seq<Fr>,
    r: nat,
    s: nat,
    v: nat,
) -> Result<ProofSpec, SynthesisError> {
    if !key_fits(pk, committed, m, z.len()) {
        Err(SynthesisError::ConstraintShapeMismatch)
    } else {
        match witness_map(m, z) {
            Err(e) => Err(e),
            Ok(h) => if pk.h_query.len() + 1 != domain_size_of(m) {
                Err(SynthesisError::ConstraintShapeMismatch)
            } else {
                Ok(proof_value(pk, r, s, v, h, fr_views(z), m.shape().num_instance(), m.num_public as nat))
            },
        }
    }
}

/// An answer that holds a proof, with the proof as its view.
pub open spec fn proof_outcome(r: Result<Proof, SynthesisError>) -> Result<ProofSpec, SynthesisError> {
    match r {
        Ok(p) => Ok(p@),
        Err(e) => Err(e),
    }
}

/// A copy of the elements of `v` from `from` up to `to`.
fn copy_range<T: Copy>(v: &Vec<T>, from: usize, to: usize) -> (r: Vec<T>)
    requires
        from <= to <= v.len(),
    ensures
        r@ == v@.subrange(from as int, to as int),
{
    let mut out: Vec<T> = Vec::new();
    let mut i: usize = from;
    while i < to
        invariant
            from <= i <= to,
            to <= v.len(),
            out@ == v@.subrange(from as int, i as int),
        decreases to - i,
    {
        out.push(v[i]);
        assert(out@ =~= v@.subrange(from as int, i + 1));
        i += 1;
    }
    out
}

/// The scalars of a range are the range of the scalars.
proof fn lemma_fr_views_subrange(v: Seq<Fr>, from: int, to: int)
    requires
        0 <= from <= to <= v.len(),
    ensures
        fr_views(v.subrange(from, to)) == fr_views(v).subrange(from, to),
{
    assert(fr_views(v.subrange(from, to)) =~= fr_views(v).subrange(from, to));
}

/// The points of a range are the range of the points.
proof fn lemma_g1_views_subrange(v: Seq<G1Point>, from: int, to: int)
    requires
        0 <= from <= to <= v.len(),
    ensures
        g1_views(v.subrange(from, to)) == g1_views(v).subrange(from, to),
{
    assert(g1_views(v.subrange(from, to)) =~= g1_views(v).subrange(from, to));
}

/// The points of a range are the range of the points.
proof fn lemma_g2_views_subrange(v: Seq<G2Point>, from: int, to: int)
    requires
        0 <= from <= to <= v.len(),
    ensures
        g2_views(v.subrange(from, to)) == g2_views(v).subrange(from, to),
{
    assert(g2_views(v.subrange(from, to)) =~= g2_views(v).subrange(from, to));
}

/// `initial + query[0] + sum(assignment[i] * query[i + 1]) + vk_param` in `G1`.
fn calculate_coeff_g1(initial: &G1Point, query: &Vec<G1Point>, vk_param: &G1Point, assignment: &Vec<Fr>) -> (r:
    G1Point)
    requires
        query.len() == assignment.len() + 1,
    ensures
        r@ == coefficient_g1(initial@, g1_views(query@), vk_param@, fr_views(assignment@)),
{
    let rest = copy_range(query, 1, query.len());
    proof {
        lemma_g1_views_subrange(query@, 1, query.len() as int);
    }
    let acc = msm_g1(&rest, assignment);
    initial.add(&query[0]).add(&acc).add(vk_param)
}

/// `initial + query[0] + sum(assignment[i] * query[i + 1]) + vk_param` in `G2`.
fn calculate_coeff_g2(initial: &G2Point, query: &Vec<G2Point>, vk_param: &G2Point, assignment: &Vec<Fr>) -> (r:
    G2Point)
    requires
        query.len() == assignment.len() + 1,
    ensures
        r@ == coefficient_g2(initial@, g2_views(query@), vk_param@, fr_views(assignment@)),
{
    let rest = copy_range(query, 1, query.len());
    proof {
        lemma_g2_views_subrange(query@, 1, query.len() as int);
    }
    let acc = msm_g2(&rest, assignment);
    initial.add(&query[0]).add(&acc).add(vk_param)
}

/// The proof for the assignment `z` with quotient coefficients `h`.
fn create_proof_with_assignment(
    pk: &ProvingKey,
    r: &Fr,
    s: &Fr,
    v: &Fr,
    h: &Vec<Fr>,
    z: &Vec<Fr>,
    instance: usize,
    public: usize,
) -> (proof: Proof)
    requires
        1 + public <= instance <= z.len(),
        pk.a_query.len() == z.len(),
        pk.b_g1_query.len() == z.len(),
        pk.b_g2_query.len() == z.len(),
        pk.vk.gamma_abc_g1.len() == instance,
        pk.l_query.len() == z.len() - instance,
        pk.h_query.len() <= h.len(),
    ensures
        proof@ == proof_value(
            pk@,
            r@,
            s@,
            v@,
            fr_views(h@),
            fr_views(z@),
            instance as nat,
            public as nat,
        ),
{
    let assignment = copy_range(z, 1, z.len());
    let private = copy_range(z, instance, z.len());
    let committed = copy_range(z, 1 + public, instance);
    let h_used = copy_range(h, 0, pk.h_query.len());
    let commitment_bases = copy_range(&pk.vk.gamma_abc_g1, 1 + public, instance);
    proof {
        lemma_fr_views_subrange(z@, 1, z.len() as int);
        lemma_fr_views_subrange(z@, instance as int, z.len() as int);
        lemma_fr_views_subrange(z@, 1 + public, instance as int);
        lemma_fr_views_subrange(h@, 0, pk.h_query.len() as int);
        lemma_g1_views_subrange(pk.vk.gamma_abc_g1@, 1 + public, instance as int);
    }
    let h_acc = msm_g1(&pk.h_query, &h_used);
    let l_aux_acc = msm_g1(&pk.l_query, &private);
    let r_s_delta_g1 = pk.delta_g1.mul(r).mul(s);

    let r_g1 = pk.delta_g1.mul(r);
    let g_a = calculate_coeff_g1(&r_g1, &pk.a_query, &pk.vk.alpha_g1, &assignment);
    let s_g_a = g_a.mul(s);

    let g1_b = if !r.is_zero() {
        let s_g1 = pk.delta_g1.mul(s);
        calculate_coeff_g1(&s_g1, &pk.b_g1_query, &pk.beta_g1, &assignment)
    } else {
        G1Point::identity()
    };

    let s_g2 = pk.vk.delta_g2.mul(s);
    let g2_b = calculate_coeff_g2(&s_g2, &pk.b_g2_query, &pk.vk.beta_g2, &assignment);
    let r_g1_b = g1_b.mul(r);

    let blinded = s_g_a.add(&r_g1_b).add(&r_s_delta_g1.neg()).add(&l_aux_acc).add(&h_acc);
    let g_c = blinded.add(&pk.eta_delta_inv_g1.mul(v).neg());
    let cm = msm_g1(&commitment_bases, &committed).add(&pk.eta_gamma_inv_g1.mul(v));
    Proof { a: g_a, b: g2_b, c: g_c, cm }
}

/// Whether `proof` is what proving answers for the key `pk`, the circuit `m`
/// and the assignment `z` under some blinding.
pub open spec fn is_proving_outcome(
    proof: Result<Proof, SynthesisError>,
    pk: ProvingKeySpec,
    committed: nat,
    m: ConstraintMatrices,
    z: Seq<Fr>,
) -> bool {
    exists|r: nat, s: nat, v: nat|
        proof_outcome(proof) == #[trigger] proving_outcome(pk, committed, m, z, r, s, v)
}

/// Whether `proof` is what proving answers for the key `pk` and the circuit
/// that `cs` describes, with the values of its variables, under some
/// blinding.
pub open spec fn is_proof_of(
    proof: Result<Proof, SynthesisError>,
    pk: ProvingKeySpec,
    committed: nat,
    cs: ConstraintSystem,
) -> bool {
    exists|m: ConstraintMatrices|
        cs.is_frozen_as(m) && #[trigger] is_proving_outcome(
            proof,
            pk,
            committed,
            m,
            cs.full_assignment(),
        )
}

impl CcGroth16 {
    /// Create a proof that is zero-knowledge: the blinding of the proof and
    /// of the commitment is drawn from `rng`.
    pub fn create_random_proof_with_reduction(
        &self,
        pk: &ProvingKey,
        matrices: &ConstraintMatrices,
        full_assignment: &Vec<Fr>,
        rng: &mut StdRng,
    ) -> (proof: Result<Proof, SynthesisError>)
        requires
            matrices.well_formed(),
        ensures
            is_proving_outcome(
                proof,
                pk@,
                self.committed_witness_count as nat,
                *matrices,
                full_assignment@,
            ),
    {
        let r = Fr::rand(rng);
        let s = Fr::rand(rng);
        let v = Fr::rand(rng);
        let proof = self.create_proof_with_reduction_and_matrices(
            pk,
            &r,
            &s,
            &v,
            matrices,
            full_assignment,
        );
        assert(proof_outcome(proof) == proving_outcome(
            pk@,
            self.committed_witness_count as nat,
            *matrices,
            full_assignment@,
            r@,
            s@,
            v@,
        ));
        proof
    }

    /// Prove that the values of the variables of `cs` meet its constraints.
    ///
    /// Answers `AssignmentMissing` where a variable has no value,
    /// `ConstraintShapeMismatch` where the key was made for another circuit,
    /// and `Unsatisfiable` where the values do not meet the constraints.
    pub fn prove(&self, pk: &ProvingKey, cs: &ConstraintSystem, rng: &mut StdRng) -> (proof: Result<
        Proof,
        SynthesisError,
    >)
        requires
            cs.well_formed(),
        ensures
            !cs.fully_assigned() ==> proof == Err::<Proof, SynthesisError>(
                SynthesisError::AssignmentMissing,
            ),
            cs.fully_assigned() ==> is_proof_of(
                proof,
                pk@,
                self.committed_witness_count as nat,
                *cs,
            ),
    {
        let z = match cs.assignment() {
            Err(e) => {
                return Err(e);
            },
            Ok(z) => z,
        };
        let matrices = cs.finalize();
        let proof = self.create_random_proof_with_reduction(pk, &matrices, &z, rng);
        assert(cs.is_frozen_as(matrices) && is_proving_outcome(
            proof,
            pk@,
            self.committed_witness_count as nat,
            matrices,
            cs.full_assignment(),
        ));
        proof
    }

    /// Create a proof using randomness `r` and `s`, with the commitment
    /// blinded by `v`, from the constraint matrices of the circuit and an
    /// assignment with one value for each column.
    pub fn create_proof_with_reduction_and_matrices(
        &self,
        pk: &ProvingKey,
        r: &Fr,
        s: &Fr,
        v: &Fr,
        matrices: &ConstraintMatrices,
        full_assignment: &Vec<Fr>,
    ) -> (proof: Result<Proof, SynthesisError>)
        requires
            matrices.well_formed(),
        ensures
            proof_outcome(proof) == proving_outcome(
                pk@,
                self.committed_witness_count as nat,
                *matrices,
                full_assignment@,
                r@,
                s@,
                v@,
            ),
    {
        if matrices.num_committed != self.committed_witness_count {
            return Err(SynthesisError::ConstraintShapeMismatch);
        }
        let columns = matrices.num_variables();
        let instance = matrices.num_instance();
        if full_assignment.len() != columns || pk.a_query.len() != columns
            || pk.b_g1_query.len() != columns || pk.b_g2_query.len() != columns
            || pk.vk.gamma_abc_g1.len() != instance || pk.l_query.len() != matrices.num_private {
            return Err(SynthesisError::ConstraintShapeMismatch);
        }
        let h = match witness_map_from_matrices(matrices, full_assignment) {
            Err(e) => {
                return Err(e);
            },
            Ok(h) => h,
        };
        if h.len() == 0 || pk.h_query.len() != h.len() - 1 {
            return Err(SynthesisError::ConstraintShapeMismatch);
        }
        Ok(
            create_proof_with_assignment(
                pk,
                r,
                s,
                v,
                &h,
                full_assignment,
                instance,
                matrices.num_public,
            ),
        )
    }
}

} // verus!

//! Verification: preparing a key, folding the public inputs into one point,
//! and the pairing check.
use crate::cc_gro::data_structures::{
    PreparedVerifyingKey, PreparedVerifyingKeySpec, Proof, ProofSpec, VerifyingKey,
    VerifyingKeySpec,
};
use crate::curve::{
    final_exp, final_exponentiation, g1_add, g1_mul, g1_views, g2_negated, g2_views,
    miller_loop, multi_miller_loop, pairing, pairing_value, G1Point, G1Spec, G2Point,
};
use crate::error::SynthesisError;
use crate::field::{fr_views, Fr};
use vstd::prelude::*;

verus! {

/// The proof system for circuits that commit to `committed_witness_count` of
/// their witnesses.
#[derive(Clone, Copy, Debug, PartialEq, Eq)]
pub struct CcGroth16 {
    pub committed_witness_count: usize,
}

/// The constant's base plus the first `n` inputs times their bases:
/// `bases[0] + inputs[0] * bases[1] + ... + inputs[n - 1] * bases[n]`,
/// summed from the left.
pub open spec fn input_accumulator(bases: Seq<G1Spec>, inputs: Seq<nat>, n: nat) -> G1Spec
    decreases n,
{
    if n == 0 {
        bases[0]
    } else {
        g1_add(
            input_accumulator(bases, inputs, (n - 1) as nat),
            g1_mul(bases[n as int], inputs[n - 1]),
        )
    }
}

/// What [`CcGroth16::prepare_inputs`] answers: the accumulated point where
/// the key has the shape that goes with the number of inputs, else the error.
pub open spec fn prepared_inputs(committed: nat, vk: VerifyingKeySpec, inputs: Seq<nat>) -> Result<
    G1Spec,
    SynthesisError,
> {
    if vk.has_shape(inputs.len(), committed) {
        Ok(input_accumulator(vk.gamma_abc_g1, inputs, inputs.len()))
    } else {
        Err(SynthesisError::MalformedVerifyingKey)
    }
}

/// An answer that holds a point, with the point as its view.
pub open spec fn point_outcome(r: Result<G1Point, SynthesisError>) -> Result<G1Spec, SynthesisError> {
    match r {
        Ok(p) => Ok(p@),
        Err(e) => Err(e),
    }
}

/// What the pairing check answers for a proof and an accumulated input point:
/// whether `e(a, b) * e(cm + inputs, -gamma) * e(c, -delta)` is
/// `e(alpha, beta)`, or the error where the product has no final
/// exponentiation.
pub open spec fn pairing_check(pvk: PreparedVerifyingKeySpec, proof: ProofSpec, inputs: G1Spec) -> Result<
    bool,
    SynthesisError,
> {
    let folded = g1_add(proof.cm, inputs);
    let product = miller_loop(
        seq![proof.a, folded, proof.c],
        seq![proof.b, pvk.gamma_g2_neg_pc, pvk.delta_g2_neg_pc],
    );
    match final_exp(product) {
        None => Err(SynthesisError::UnexpectedIdentity),
        Some(t) => Ok(t == pvk.alpha_g1_beta_g2),
    }
}

/// What [`CcGroth16::verify_proof`] answers.
pub open spec fn verification(
    committed: nat,
    pvk: PreparedVerifyingKeySpec,
    proof: ProofSpec,
    inputs: Seq<nat>,
) -> Result<bool, SynthesisError> {
    match prepared_inputs(committed, pvk.vk, inputs) {
        Err(e) => Err(e),
        Ok(p) => pairing_check(pvk, proof, p),
    }
}

/// What preparing `vk` gives, where the pairing of `alpha_g1` with `beta_g2`
/// is defined: the key itself, that pairing, and the inverses of `gamma_g2`
/// and `delta_g2`.
pub open spec fn prepared(vk: VerifyingKeySpec) -> PreparedVerifyingKeySpec {
    PreparedVerifyingKeySpec {
        vk,
        alpha_g1_beta_g2: pairing_value(vk.alpha_g1, vk.beta_g2).unwrap(),
        gamma_g2_neg_pc: g2_negated(vk.gamma_g2),
        delta_g2_neg_pc: g2_negated(vk.delta_g2),
    }
}

/// A copy of a verifying key.
pub fn copy_key(vk: &VerifyingKey) -> (r: VerifyingKey)
    ensures
        r@ == vk@,
{
    let mut bases: Vec<G1Point> = Vec::new();
    let mut i: usize = 0;
    while i < vk.gamma_abc_g1.len()
        invariant
            i <= vk.gamma_abc_g1.len(),
            bases@ == vk.gamma_abc_g1@.subrange(0, i as int),
        decreases vk.gamma_abc_g1.len() - i,
    {
        bases.push(vk.gamma_abc_g1[i]);
        assert(bases@ =~= vk.gamma_abc_g1@.subrange(0, i + 1));
        i += 1;
    }
    assert(bases@ =~= vk.gamma_abc_g1@);
    VerifyingKey {
        alpha_g1: vk.alpha_g1,
        beta_g2: vk.beta_g2,
        gamma_g2: vk.gamma_g2,
        delta_g2: vk.delta_g2,
        gamma_abc_g1: bases,
    }
}

/// Prepare the verifying key `vk` for use in proof verification.
///
/// The pairing of `alpha_g1` with `beta_g2` has to be defined, as it is for
/// every key that setup makes; [`try_prepare_verifying_key`] asks nothing.
pub fn prepare_verifying_key(vk: &VerifyingKey) -> (pvk: PreparedVerifyingKey)
    requires
        pairing_value(vk.alpha_g1@, vk.beta_g2@).is_some(),
    ensures
        pvk@ == prepared(vk@),
        pvk.alpha_g1_beta_g2.is_canonical(),
        pvk.gamma_g2_neg_pc.is_canonical(),
        pvk.delta_g2_neg_pc.is_canonical(),
{
    let alpha_g1_beta_g2 = pairing(&vk.alpha_g1, &vk.beta_g2).unwrap();
    PreparedVerifyingKey {
        vk: copy_key(vk),
        alpha_g1_beta_g2,
        gamma_g2_neg_pc: vk.gamma_g2.neg(),
        delta_g2_neg_pc: vk.delta_g2.neg(),
    }
}

/// Prepare the verifying key `vk` if the pairing of `alpha_g1` with `beta_g2`
/// is defined, and answer `None` if it is not.
pub fn try_prepare_verifying_key(vk: &VerifyingKey) -> (r: Option<PreparedVerifyingKey>)
    ensures
        r.is_none() <==> pairing_value(vk.alpha_g1@, vk.beta_g2@).is_none(),
        r matches Some(pvk) ==> pvk@ == prepared(vk@),
{
    if pairing(&vk.alpha_g1, &vk.beta_g2).is_some() {
        Some(prepare_verifying_key(vk))
    } else {
        None
    }
}

impl CcGroth16 {
    /// The system for circuits with `committed_witness_count` committed witnesses.
    pub fn new(committed_witness_count: usize) -> (r: CcGroth16)
        ensures
            r.committed_witness_count == committed_witness_count,
    {
        CcGroth16 { committed_witness_count }
    }

    /// Fold the public inputs into one point of `G1`, with respect to the
    /// prepared verification key `pvk`. Answers `MalformedVerifyingKey`
    /// exactly where the key does not hold one base for the constant, one for
    /// each public input and one for each committed witness.
    pub fn prepare_inputs(&self, pvk: &PreparedVerifyingKey, public_inputs: &[Fr]) -> (r: Result<
        G1Point,
        SynthesisError,
    >)
        ensures
            point_outcome(r) == prepared_inputs(
                self.committed_witness_count as nat,
                pvk@.vk,
                fr_views(public_inputs@),
            ),
    {
        let n = public_inputs.len();
        let len = pvk.vk.gamma_abc_g1.len();
        if len == 0 || len - 1 < n || len - 1 - n != self.committed_witness_count {
            return Err(SynthesisError::MalformedVerifyingKey);
        }
        let ghost bases = pvk@.vk.gamma_abc_g1;
        let ghost inputs = fr_views(public_inputs@);
        let mut g_ic = pvk.vk.gamma_abc_g1[0];
        let mut i: usize = 0;
        while i < n
            invariant
                i <= n,
                n == public_inputs.len(),
                n + 1 <= pvk.vk.gamma_abc_g1.len(),
                bases == g1_views(pvk.vk.gamma_abc_g1@),
                inputs == fr_views(public_inputs@),
                g_ic@ == input_accumulator(bases, inputs, i as nat),
            decreases n - i,
        {
            let term = pvk.vk.gamma_abc_g1[i + 1].mul(&public_inputs[i]);
            g_ic = g_ic.add(&term);
            i += 1;
        }
        Ok(g_ic)
    }

    /// Verify a proof `proof` against the prepared verification key `pvk` and
    /// prepared public inputs. This should be preferred over
    /// [`CcGroth16::verify_proof`] if the instance's public inputs are known
    /// in advance.
    pub fn verify_proof_with_prepared_inputs(
        pvk: &PreparedVerifyingKey,
        proof: &Proof,
        prepared_inputs: &G1Point,
    ) -> (r: Result<bool, SynthesisError>)
        ensures
            r == pairing_check(pvk@, proof@, prepared_inputs@),
    {
        let folded = proof.cm.add(prepared_inputs);
        let g1: Vec<G1Point> = vec![proof.a, folded, proof.c];
        let g2: Vec<G2Point> = vec![proof.b, pvk.gamma_g2_neg_pc, pvk.delta_g2_neg_pc];
        assert(g1_views(g1@) =~= seq![proof@.a, g1_add(proof@.cm, prepared_inputs@), proof@.c]);
        assert(g2_views(g2@) =~= seq![proof@.b, pvk@.gamma_g2_neg_pc, pvk@.delta_g2_neg_pc]);
        let qap = multi_miller_loop(&g1, &g2);
        match final_exponentiation(&qap) {
            None => Err(SynthesisError::UnexpectedIdentity),
            Some(test) => Ok(test.same_value(&pvk.alpha_g1_beta_g2)),
        }
    }

    /// Verify a proof `proof` against the prepared verification key `pvk`,
    /// with respect to the instance `public_inputs`.
    pub fn verify_proof(&self, pvk: &PreparedVerifyingKey, proof: &Proof, public_inputs: &[Fr]) -> (r:
        Result<bool, SynthesisError>)
        ensures
            r == verification(
                self.committed_witness_count as nat,
                pvk@,
                proof@,
                fr_views(public_inputs@),
            ),
    {
        match self.prepare_inputs(pvk, public_inputs) {
            Err(e) => Err(e),
            Ok(prepared) => Self::verify_proof_with_prepared_inputs(pvk, proof, &prepared),
        }
    }
}

impl CcGroth16 {
    /// Prepare the verifying key `vk`, or answer `UnexpectedIdentity` where
    /// the pairing of `alpha_g1` with `beta_g2` is not defined.
    pub fn process_vk(vk: &VerifyingKey) -> (r: Result<PreparedVerifyingKey, SynthesisError>)
        ensures
            r.is_err() <==> pairing_value(vk.alpha_g1@, vk.beta_g2@).is_none(),
            r matches Err(e) ==> e == SynthesisError::UnexpectedIdentity,
            r matches Ok(pvk) ==> pvk@ == prepared(vk@),
    {
        match try_prepare_verifying_key(vk) {
            None => Err(SynthesisError::UnexpectedIdentity),
            Some(pvk) => Ok(pvk),
        }
    }

    /// Verify a proof against a prepared verifying key and the public inputs.
    pub fn verify_with_processed_vk(&self, pvk: &PreparedVerifyingKey, public_inputs: &[Fr], proof: &Proof) -> (r:
        Result<bool, SynthesisError>)
        ensures
            r == verification(
                self.committed_witness_count as nat,
                pvk@,
                proof@,
                fr_views(public_inputs@),
            ),
    {
        self.verify_proof(pvk, proof, public_inputs)
    }

    /// Verify a proof against a verifying key and the public inputs: the key
    /// is prepared, then the proof is checked.
    pub fn verify(&self, vk: &VerifyingKey, public_inputs: &[Fr], proof: &Proof) -> (r: Result<
        bool,
        SynthesisError,
    >)
        ensures
            pairing_value(vk.alpha_g1@, vk.beta_g2@).is_none() ==> r == Err::<bool, SynthesisError>(
                SynthesisError::UnexpectedIdentity,
            ),
            pairing_value(vk.alpha_g1@, vk.beta_g2@).is_some() ==> r == verification(
                self.committed_witness_count as nat,
                prepared(vk@),
                proof@,
                fr_views(public_inputs@),
            ),
    {
        match Self::process_vk(vk) {
            Err(e) => Err(e),
            Ok(pvk) => self.verify_with_processed_vk(&pvk, public_inputs, proof),
        }
    }
}

/// A key made for `public` inputs and `committed` witnesses takes exactly
/// `public` inputs: with that many, the inputs are folded; with any other
/// number, and so with one more or one fewer, the answer is
/// `MalformedVerifyingKey`.
pub proof fn lemma_key_shape_decides(
    committed: nat,
    vk: VerifyingKeySpec,
    public: nat,
    inputs: Seq<nat>,
)
    requires
        vk.has_shape(public, committed),
    ensures
        inputs.len() == public ==> prepared_inputs(committed, vk, inputs).is_ok(),
        inputs.len() != public ==> prepared_inputs(committed, vk, inputs) == Err::<
            G1Spec,
            SynthesisError,
        >(SynthesisError::MalformedVerifyingKey),
{
}

/// A key whose count of bases is off by one from the shape that goes with
/// the inputs is refused, and so is every proof under it.
pub proof fn lemma_corrupted_key_is_refused(
    committed: nat,
    pvk: PreparedVerifyingKeySpec,
    proof: ProofSpec,
    inputs: Seq<nat>,
)
    requires
        pvk.vk.gamma_abc_g1.len() == 1 + inputs.len() + committed + 1 || pvk.vk.gamma_abc_g1.len()
            + 1 == 1 + inputs.len() + committed,
    ensures
        prepared_inputs(committed, pvk.vk, inputs) == Err::<G1Spec, SynthesisError>(
            SynthesisError::MalformedVerifyingKey,
        ),
        verification(committed, pvk, proof, inputs) == Err::<bool, SynthesisError>(
            SynthesisError::MalformedVerifyingKey,
        ),
{
}

/// Changing the inputs without changing their number never turns a verdict
/// into a refusal of the key: where one list of inputs is judged, every list
/// of the same length is answered with a verdict or with
/// `UnexpectedIdentity`, never with `MalformedVerifyingKey`. Which verdict
/// it is lies with the pairing.
pub proof fn lemma_changed_inputs_are_judged(
    committed: nat,
    pvk: PreparedVerifyingKeySpec,
    proof: ProofSpec,
    inputs: Seq<nat>,
    changed: Seq<nat>,
)
    requires
        changed.len() == inputs.len(),
        verification(committed, pvk, proof, inputs).is_ok(),
    ensures
        verification(committed, pvk, proof, changed) != Err::<bool, SynthesisError>(
            SynthesisError::MalformedVerifyingKey,
        ),
        verification(committed, pvk, proof, changed) == pairing_check(
            pvk,
            proof,
            input_accumulator(pvk.vk.gamma_abc_g1, changed, changed.len()),
        ),
{
}

} // verus!

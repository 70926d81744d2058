//! Setup: deriving the proving and verifying keys of a circuit from a
//! trapdoor.
use crate::cc_gro::data_structures::{ProvingKey, ProvingKeySpec, VerifyingKey};
use crate::cc_gro::r1cs_to_qap::{
    evaluate_vanishing_polynomial, evaluation_domain_size, h_query_scalars,
    instance_map_with_evaluation, is_domain_size, is_qap_evaluation, quotient_scalars,
    vanishing_value, QapEvaluation,
};
use crate::cc_gro::verifying::{copy_key, CcGroth16};
use crate::curve::{
    g1_generator, g1_mul, g1_views, g2_generator, g2_mul, g2_views, G1Point, G1Spec, G2Point,
    G2Spec,
};
use crate::error::SynthesisError;
use crate::field::{fr_inverse_of, fr_product, fr_sum, fr_views, Fr};
use crate::r1cs::{ConstraintMatrices, ConstraintSystem};
use rand::rngs::StdRng;
use vstd::prelude::*;

verus! {

/// The secrets of one setup. Who knows them can forge proofs, so they live
/// for one call and no key holds them.
pub struct Trapdoor {
    pub alpha: Fr,
    pub beta: Fr,
    pub gamma: Fr,
    pub delta: Fr,
    /// Blinds the commitment.
    pub eta: Fr,
    /// The point at which the polynomials are evaluated.
    pub tau: Fr,
}

/// `beta * a[i] + alpha * b[i] + c[i]` in the field.
pub open spec fn combined_value(a: Seq<nat>, b: Seq<nat>, c: Seq<nat>, alpha: nat, beta: nat, i: int) -> nat {
    fr_sum(fr_sum(fr_product(beta, a[i]), fr_product(alpha, b[i])), c[i])
}

/// The multiples of the generator of `G1` by the given scalars.
pub open spec fn g1_multiples(scalars: Seq<nat>) -> Seq<G1Spec> {
    Seq::new(scalars.len(), |i: int| g1_mul(g1_generator(), scalars[i]))
}

/// The multiples of the generator of `G2` by the given scalars.
pub open spec fn g2_multiples(scalars: Seq<nat>) -> Seq<G2Spec> {
    Seq::new(scalars.len(), |i: int| g2_mul(g2_generator(), scalars[i]))
}

/// `(beta * a[i] + alpha * b[i] + c[i]) * scale` for `i` from `from` up to
/// `to`.
pub open spec fn combined_scalars(
    a: Seq<nat>,
    b: Seq<nat>,
    c: Seq<nat>,
    alpha: nat,
    beta: nat,
    scale: nat,
    from: nat,
    to: nat,
) -> Seq<nat> {
    Seq::new(
        (to - from) as nat,
        |k: int| fr_product(combined_value(a, b, c, alpha, beta, from + k), scale),
    )
}

/// Whether `pk` is the key that the trapdoor `t` gives for a circuit whose
/// QAP, evaluated at `t.tau`, is `q`, and which has `instance` columns for
/// the constant, the public inputs and the committed witnesses.
#[verifier::opaque]
pub open spec fn is_key_of(pk: ProvingKeySpec, q: QapEvaluation, instance: nat, t: Trapdoor) -> bool {
    let a = fr_views(q.a@);
    let b = fr_views(q.b@);
    let c = fr_views(q.c@);
    let gamma_inverse = fr_inverse_of(t.gamma@);
    let delta_inverse = fr_inverse_of(t.delta@);
    &&& pk.vk.alpha_g1 == g1_mul(g1_generator(), t.alpha@)
    &&& pk.vk.beta_g2 == g2_mul(g2_generator(), t.beta@)
    &&& pk.vk.gamma_g2 == g2_mul(g2_generator(), t.gamma@)
    &&& pk.vk.delta_g2 == g2_mul(g2_generator(), t.delta@)
    &&& pk.vk.gamma_abc_g1 == g1_multiples(
        combined_scalars(a, b, c, t.alpha@, t.beta@, gamma_inverse, 0, instance),
    )
    &&& pk.beta_g1 == g1_mul(g1_generator(), t.beta@)
    &&& pk.delta_g1 == g1_mul(g1_generator(), t.delta@)
    &&& pk.a_query == g1_multiples(a)
    &&& pk.b_g1_query == g1_multiples(b)
    &&& pk.b_g2_query == g2_multiples(b)
    &&& pk.h_query == g1_multiples(
        quotient_scalars((q.domain_size - 1) as nat, t.tau@, q.zt@, delta_inverse),
    )
    &&& pk.l_query == g1_multiples(
        combined_scalars(a, b, c, t.alpha@, t.beta@, delta_inverse, instance, a.len()),
    )
    &&& pk.eta_gamma_inv_g1 == g1_mul(g1_generator(), fr_product(t.eta@, gamma_inverse))
    &&& pk.eta_delta_inv_g1 == g1_mul(g1_generator(), fr_product(t.eta@, delta_inverse))
}

/// Why a trapdoor gives no key for a circuit, if it gives none. A circuit
/// that commits to another number of witnesses than the system is for has
/// the wrong shape; a trapdoor with a zero in it, or with a point of the
/// evaluation domain for `tau`, is refused.
pub open spec fn setup_refusal(committed: nat, m: ConstraintMatrices, t: Trapdoor) -> Option<
    SynthesisError,
> {
    if m.num_committed != committed {
        Some(SynthesisError::ConstraintShapeMismatch)
    } else if m.a.len() + m.shape().num_instance() > 0x1000_0000 {
        Some(SynthesisError::PolynomialDegreeTooLarge)
    } else if t.alpha@ == 0 || t.beta@ == 0 || t.gamma@ == 0 || t.delta@ == 0 || t.eta@ == 0
        || crate::cc_gro::r1cs_to_qap::vanishing_value(
        crate::cc_gro::r1cs_to_qap::domain_size_of(m),
        t.tau@,
    ) == 0 {
        Some(SynthesisError::UnexpectedIdentity)
    } else {
        None
    }
}

/// The multiples of the generator of `G1` by the given scalars.
fn scale_g1(scalars: &Vec<Fr>) -> (r: Vec<G1Point>)
    ensures
        r.len() == scalars.len(),
        g1_views(r@) == g1_multiples(fr_views(scalars@)),
{
    let g = G1Point::generator();
    let mut out: Vec<G1Point> = Vec::new();
    let mut i: usize = 0;
    while i < scalars.len()
        invariant
            i <= scalars.len(),
            out.len() == i,
            g@ == g1_generator(),
            forall|k: int| 0 <= k < i ==> (#[trigger] out[k])@ == g1_mul(g1_generator(), scalars[k]@),
        decreases scalars.len() - i,
    {
        out.push(g.mul(&scalars[i]));
        i += 1;
    }
    assert(g1_views(out@) =~= g1_multiples(fr_views(scalars@)));
    out
}

/// The multiples of the generator of `G2` by the given scalars.
fn scale_g2(scalars: &Vec<Fr>) -> (r: Vec<G2Point>)
    ensures
        r.len() == scalars.len(),
        g2_views(r@) == g2_multiples(fr_views(scalars@)),
{
    let g = G2Point::generator();
    let mut out: Vec<G2Point> = Vec::new();
    let mut i: usize = 0;
    while i < scalars.len()
        invariant
            i <= scalars.len(),
            out.len() == i,
            g@ == g2_generator(),
            forall|k: int| 0 <= k < i ==> (#[trigger] out[k])@ == g2_mul(g2_generator(), scalars[k]@),
        decreases scalars.len() - i,
    {
        out.push(g.mul(&scalars[i]));
        i += 1;
    }
    assert(g2_views(out@) =~= g2_multiples(fr_views(scalars@)));
    out
}

/// `(beta * a[i] + alpha * b[i] + c[i]) * scale` for `i` from `from` up to
/// `to`.
fn combine(q: &QapEvaluation, alpha: &Fr, beta: &Fr, scale: &Fr, from: usize, to: usize) -> (r: Vec<Fr>)
    requires
        from <= to,
        to <= q.a.len(),
        q.a.len() == q.b.len(),
        q.a.len() == q.c.len(),
    ensures
        r.len() == to - from,
        fr_views(r@) == combined_scalars(
            fr_views(q.a@),
            fr_views(q.b@),
            fr_views(q.c@),
            alpha@,
            beta@,
            scale@,
            from as nat,
            to as nat,
        ),
{
    let ghost want = combined_scalars(
        fr_views(q.a@),
        fr_views(q.b@),
        fr_views(q.c@),
        alpha@,
        beta@,
        scale@,
        from as nat,
        to as nat,
    );
    let mut out: Vec<Fr> = Vec::new();
    let mut i: usize = from;
    while i < to
        invariant
            from <= i <= to,
            to <= q.a.len(),
            q.a.len() == q.b.len(),
            q.a.len() == q.c.len(),
            out.len() == i - from,
            want == combined_scalars(
                fr_views(q.a@),
                fr_views(q.b@),
                fr_views(q.c@),
                alpha@,
                beta@,
                scale@,
                from as nat,
                to as nat,
            ),
            forall|k: int| 0 <= k < i - from ==> (#[trigger] out[k])@ == want[k],
        decreases to - i,
    {
        let value = beta.mul(&q.a[i]).add(&alpha.mul(&q.b[i])).add(&q.c[i]);
        out.push(value.mul(scale));
        i += 1;
    }
    assert(fr_views(out@) =~= want);
    out
}

/// The key that the trapdoor gives for a circuit whose QAP at `t.tau` is `q`.
fn assemble_key(q: &QapEvaluation, t: &Trapdoor, gamma_inverse: &Fr, delta_inverse: &Fr, instance: usize) -> (pk:
    ProvingKey)
    requires
        instance <= q.a.len(),
        q.a.len() == q.b.len(),
        q.a.len() == q.c.len(),
        q.domain_size >= 1,
        gamma_inverse@ == fr_inverse_of(t.gamma@),
        delta_inverse@ == fr_inverse_of(t.delta@),
    ensures
        is_key_of(pk@, *q, instance as nat, *t),
        pk.vk.gamma_abc_g1.len() == instance,
{
    reveal(is_key_of);
    let g1 = G1Point::generator();
    let g2 = G2Point::generator();
    let gamma_abc = combine(q, &t.alpha, &t.beta, gamma_inverse, 0, instance);
    let l = combine(q, &t.alpha, &t.beta, delta_inverse, instance, q.a.len());
    let h = h_query_scalars(q.domain_size - 1, &t.tau, &q.zt, delta_inverse);
    let vk = VerifyingKey {
        alpha_g1: g1.mul(&t.alpha),
        beta_g2: g2.mul(&t.beta),
        gamma_g2: g2.mul(&t.gamma),
        delta_g2: g2.mul(&t.delta),
        gamma_abc_g1: scale_g1(&gamma_abc),
    };
    ProvingKey {
        vk,
        beta_g1: g1.mul(&t.beta),
        delta_g1: g1.mul(&t.delta),
        a_query: scale_g1(&q.a),
        b_g1_query: scale_g1(&q.b),
        b_g2_query: scale_g2(&q.b),
        h_query: scale_g1(&h),
        l_query: scale_g1(&l),
        eta_gamma_inv_g1: g1.mul(&t.eta.mul(gamma_inverse)),
        eta_delta_inv_g1: g1.mul(&t.eta.mul(delta_inverse)),
    }
}

/// Whether `r` is what setup answers for the matrices `m` and the trapdoor
/// `t`: the error of [`setup_refusal`] where there is one, else the key of
/// [`is_key_of`], whose verifying key has the circuit's shape.
#[verifier::opaque]
pub open spec fn is_setup_outcome(
    r: Result<ProvingKey, SynthesisError>,
    committed: nat,
    m: ConstraintMatrices,
    t: Trapdoor,
) -> bool {
    match r {
        Err(e) => setup_refusal(committed, m, t) == Some(e),
        Ok(pk) => {
            &&& setup_refusal(committed, m, t) is None
            &&& exists|q: QapEvaluation|
                is_qap_evaluation(q, m, t.tau@) && is_key_of(pk@, q, m.shape().num_instance(), t)
            &&& pk@.vk.has_shape(m.num_public as nat, m.num_committed as nat)
        },
    }
}

/// How often a zero draw is thrown away before sampling gives up.
pub const MAX_DRAWS: usize = 64;

/// A random nonzero scalar: zeros are thrown away and drawn again, up to
/// [`MAX_DRAWS`] times.
pub fn sample_nonzero(rng: &mut StdRng) -> (r: Option<Fr>)
    ensures
        r matches Some(s) ==> s@ != 0 && s.is_canonical(),
{
    let mut draws: usize = 0;
    while draws < MAX_DRAWS
        invariant
            draws <= MAX_DRAWS,
        decreases MAX_DRAWS - draws,
    {
        let kept = keep_nonzero(Fr::rand(rng));
        if kept.is_some() {
            return kept;
        }
        draws += 1;
    }
    None
}

/// A random scalar outside the evaluation domain of size `size`: draws on
/// which the vanishing polynomial is zero are thrown away and drawn again,
/// up to [`MAX_DRAWS`] times.
pub fn sample_outside_domain(size: usize, rng: &mut StdRng) -> (r: Option<Fr>)
    requires
        is_domain_size(size as nat),
    ensures
        r matches Some(t) ==> vanishing_value(size as nat, t@) != 0 && t.is_canonical(),
{
    let mut draws: usize = 0;
    while draws < MAX_DRAWS
        invariant
            draws <= MAX_DRAWS,
            is_domain_size(size as nat),
        decreases MAX_DRAWS - draws,
    {
        let kept = keep_outside_domain(size, Fr::rand(rng));
        if kept.is_some() {
            return kept;
        }
        draws += 1;
    }
    None
}

/// Draw the secrets of one setup for a domain of size `size`: none of them
/// zero, and `tau` outside the domain.
pub fn sample_trapdoor(size: usize, rng: &mut StdRng) -> (r: Option<Trapdoor>)
    requires
        is_domain_size(size as nat),
    ensures
        r matches Some(t) ==> {
            &&& t.alpha@ != 0
            &&& t.beta@ != 0
            &&& t.gamma@ != 0
            &&& t.delta@ != 0
            &&& t.eta@ != 0
            &&& vanishing_value(size as nat, t.tau@) != 0
        },
{
    let alpha = sample_nonzero(rng)?;
    let beta = sample_nonzero(rng)?;
    let gamma = sample_nonzero(rng)?;
    let delta = sample_nonzero(rng)?;
    let eta = sample_nonzero(rng)?;
    let tau = sample_outside_domain(size, rng)?;
    Some(Trapdoor { alpha, beta, gamma, delta, eta, tau })
}

/// What becomes of one draw where a nonzero scalar is wanted: it is kept
/// unless it is zero.
pub fn keep_nonzero(s: Fr) -> (r: Option<Fr>)
    ensures
        r == (if s@ != 0 {
            Some(s)
        } else {
            None::<Fr>
        }),
{
    if s.is_zero() {
        None
    } else {
        Some(s)
    }
}

/// What becomes of one draw where a scalar outside the evaluation domain of
/// size `size` is wanted: it is kept unless the vanishing polynomial is zero
/// on it.
pub fn keep_outside_domain(size: usize, t: Fr) -> (r: Option<Fr>)
    requires
        is_domain_size(size as nat),
    ensures
        r == (if vanishing_value(size as nat, t@) != 0 {
            Some(t)
        } else {
            None::<Fr>
        }),
{
    if evaluate_vanishing_polynomial(size, &t).is_zero() {
        None
    } else {
        Some(t)
    }
}

/// Whether `pk` is a key that setup gives for the circuit that `cs`
/// describes, under some trapdoor.
pub open spec fn is_setup_of(cs: ConstraintSystem, committed: nat, pk: ProvingKey) -> bool {
    exists|m: ConstraintMatrices, t: Trapdoor|
        cs.is_frozen_as(m) && is_setup_outcome(Ok(pk), committed, m, t)
}

/// A key of the frozen circuit is a key of the circuit.
proof fn lemma_setup_of_frozen(cs: &ConstraintSystem, m: ConstraintMatrices, pk: ProvingKey, committed: nat)
    requires
        cs.is_frozen_as(m),
        exists|t: Trapdoor| is_setup_outcome(Ok(pk), committed, m, t),
    ensures
        is_setup_of(*cs, committed, pk),
{
    let t = choose|t: Trapdoor| is_setup_outcome(Ok(pk), committed, m, t);
    assert(cs.is_frozen_as(m) && is_setup_outcome(Ok(pk), committed, m, t));
}

impl CcGroth16 {
    /// Generates a random common reference string for a circuit.
    ///
    /// The trapdoor is drawn here and dropped here. Whatever is drawn, a key
    /// that comes back is the key of some trapdoor without a zero in it.
    pub fn generate_random_parameters_with_reduction(&self, matrices: &ConstraintMatrices, rng: &mut StdRng) -> (r:
        Result<ProvingKey, SynthesisError>)
        requires
            matrices.well_formed(),
        ensures
            r matches Ok(pk) ==> {
                &&& exists|t: Trapdoor|
                    is_setup_outcome(Ok(pk), self.committed_witness_count as nat, *matrices, t)
                &&& matrices.num_committed == self.committed_witness_count
                &&& pk@.vk.has_shape(matrices.num_public as nat, matrices.num_committed as nat)
            },
            r matches Err(e) ==> {
                &&& e == SynthesisError::ConstraintShapeMismatch <==> matrices.num_committed
                    != self.committed_witness_count
                &&& e == SynthesisError::PolynomialDegreeTooLarge <==> matrices.num_committed
                    == self.committed_witness_count && matrices.a.len()
                    + matrices.shape().num_instance() > 0x1000_0000
                &&& e == SynthesisError::ConstraintShapeMismatch || e
                    == SynthesisError::PolynomialDegreeTooLarge || e
                    == SynthesisError::UnexpectedIdentity
            },
    {
        if matrices.num_committed != self.committed_witness_count {
            return Err(SynthesisError::ConstraintShapeMismatch);
        }
        let num_constraints = matrices.a.len();
        let num_instance = matrices.num_instance();
        if num_constraints > 0x1000_0000 || num_instance > 0x1000_0000 {
            return Err(SynthesisError::PolynomialDegreeTooLarge);
        }
        let size = match evaluation_domain_size(num_constraints + num_instance) {
            None => {
                return Err(SynthesisError::PolynomialDegreeTooLarge);
            },
            Some(size) => size,
        };
        let trapdoor = match sample_trapdoor(size, rng) {
            None => {
                return Err(SynthesisError::UnexpectedIdentity);
            },
            Some(t) => t,
        };
        let r = self.generate_parameters_with_qap(matrices, &trapdoor);
        proof {
            assert(setup_refusal(self.committed_witness_count as nat, *matrices, trapdoor) is None);
            assert(is_setup_outcome(r, self.committed_witness_count as nat, *matrices, trapdoor));
        }
        r
    }

    /// Generates the proving and the verifying key of the circuit that `cs`
    /// describes. The values of the variables, if there are any, play no part.
    ///
    /// A circuit that commits to another number of witnesses than the system
    /// is for is refused with `ConstraintShapeMismatch`, one too large for an
    /// evaluation domain with `PolynomialDegreeTooLarge`. Any other circuit
    /// gets its keys unless the draws give out, which is `UnexpectedIdentity`.
    pub fn setup(&self, cs: &ConstraintSystem, rng: &mut StdRng) -> (r: Result<
        (ProvingKey, VerifyingKey),
        SynthesisError,
    >)
        requires
            cs.well_formed(),
        ensures
            r matches Ok(keys) ==> {
                &&& keys.1@ == keys.0@.vk
                &&& keys.1@.has_shape(cs.public.len() as nat, cs.committed.len() as nat)
                &&& cs.committed.len() == self.committed_witness_count
                &&& is_setup_of(*cs, self.committed_witness_count as nat, keys.0)
            },
            cs.committed.len() != self.committed_witness_count ==> r == Err::<
                (ProvingKey, VerifyingKey),
                SynthesisError,
            >(SynthesisError::ConstraintShapeMismatch),
            r matches Err(e) ==> {
                &&& e == SynthesisError::ConstraintShapeMismatch <==> cs.committed.len()
                    != self.committed_witness_count
                &&& e == SynthesisError::PolynomialDegreeTooLarge <==> cs.committed.len()
                    == self.committed_witness_count && cs.constraints.len() + 1 + cs.public.len()
                    + cs.committed.len() > 0x1000_0000
                &&& e == SynthesisError::ConstraintShapeMismatch || e
                    == SynthesisError::PolynomialDegreeTooLarge || e
                    == SynthesisError::UnexpectedIdentity
            },
    {
        let matrices = cs.finalize();
        let generated = self.generate_random_parameters_with_reduction(&matrices, rng);
        match generated {
            Err(e) => Err(e),
            Ok(pk) => {
                proof {
                    lemma_setup_of_frozen(cs, matrices, pk, self.committed_witness_count as nat);
                }
                let vk = copy_key(&pk.vk);
                Ok((pk, vk))
            },
        }
    }

    /// Create parameters for a circuit, given some toxic waste.
    ///
    /// The key is a function of the matrices and the trapdoor alone. A
    /// trapdoor with a zero in it, or whose `tau` lies in the evaluation
    /// domain, gives `UnexpectedIdentity`: whoever samples has to sample
    /// again.
    pub fn generate_parameters_with_qap(&self, matrices: &ConstraintMatrices, trapdoor: &Trapdoor) -> (r:
        Result<ProvingKey, SynthesisError>)
        requires
            matrices.well_formed(),
        ensures
            is_setup_outcome(r, self.committed_witness_count as nat, *matrices, *trapdoor),
            r.is_err() <==> setup_refusal(
                self.committed_witness_count as nat,
                *matrices,
                *trapdoor,
            ).is_some(),
            r matches Ok(pk) ==> pk@.vk.has_shape(
                matrices.num_public as nat,
                matrices.num_committed as nat,
            ),
    {
        reveal(is_setup_outcome);
        if matrices.num_committed != self.committed_witness_count {
            return Err(SynthesisError::ConstraintShapeMismatch);
        }
        let q = match instance_map_with_evaluation(matrices, &trapdoor.tau) {
            Err(e) => {
                return Err(e);
            },
            Ok(q) => q,
        };
        if trapdoor.alpha.is_zero() || trapdoor.beta.is_zero() || trapdoor.eta.is_zero()
            || q.zt.is_zero() {
            return Err(SynthesisError::UnexpectedIdentity);
        }
        let gamma_inverse = match trapdoor.gamma.inverse() {
            None => {
                return Err(SynthesisError::UnexpectedIdentity);
            },
            Some(v) => v,
        };
        let delta_inverse = match trapdoor.delta.inverse() {
            None => {
                return Err(SynthesisError::UnexpectedIdentity);
            },
            Some(v) => v,
        };
        let pk = assemble_key(&q, trapdoor, &gamma_inverse, &delta_inverse, matrices.num_instance());
        Ok(pk)
    }
}

} // verus!

//! Keys and proofs.
use crate::curve::{g1_views, g2_views, G1Point, G1Spec, G2Point, G2Spec, Gt};
use vstd::prelude::*;

verus! {

/// A proof: the three elements of Groth16 and the commitment `cm` to the
/// committed witnesses.
#[derive(Clone, Copy, Debug, PartialEq, Eq)]
pub struct Proof {
    pub a: G1Point,
    pub b: G2Point,
    pub c: G1Point,
    pub cm: G1Point,
}

/// What a [`Proof`] is, mathematically.
pub struct ProofSpec {
    pub a: G1Spec,
    pub b: G2Spec,
    pub c: G1Spec,
    pub cm: G1Spec,
}

impl View for Proof {
    type V = ProofSpec;

    open spec fn view(&self) -> ProofSpec {
        ProofSpec { a: self.a@, b: self.b@, c: self.c@, cm: self.cm@ }
    }
}

/// A verifying key. `gamma_abc_g1` holds one base for the constant, one for
/// each public input and one for each committed witness, in this order.
#[derive(Clone, Debug, PartialEq, Eq)]
pub struct VerifyingKey {
    pub alpha_g1: G1Point,
    pub beta_g2: G2Point,
    pub gamma_g2: G2Point,
    pub delta_g2: G2Point,
    pub gamma_abc_g1: Vec<G1Point>,
}

/// What a [`VerifyingKey`] is, mathematically.
pub struct VerifyingKeySpec {
    pub alpha_g1: G1Spec,
    pub beta_g2: G2Spec,
    pub gamma_g2: G2Spec,
    pub delta_g2: G2Spec,
    pub gamma_abc_g1: Seq<G1Spec>,
}

impl View for VerifyingKey {
    type V = VerifyingKeySpec;

    open spec fn view(&self) -> VerifyingKeySpec {
        VerifyingKeySpec {
            alpha_g1: self.alpha_g1@,
            beta_g2: self.beta_g2@,
            gamma_g2: self.gamma_g2@,
            delta_g2: self.delta_g2@,
            gamma_abc_g1: g1_views(self.gamma_abc_g1@),
        }
    }
}

impl VerifyingKeySpec {
    /// The key has a base for the constant, for `public` inputs and for
    /// `committed` witnesses, and for nothing else.
    pub open spec fn has_shape(self, public: nat, committed: nat) -> bool {
        self.gamma_abc_g1.len() == 1 + public + committed
    }
}

/// A verifying key with what verification needs of it computed once: the
/// pairing of `alpha_g1` with `beta_g2`, and the inverses of `gamma_g2` and
/// `delta_g2`.
#[derive(Clone, Debug, PartialEq, Eq)]
pub struct PreparedVerifyingKey {
    pub vk: VerifyingKey,
    pub alpha_g1_beta_g2: Gt,
    pub gamma_g2_neg_pc: G2Point,
    pub delta_g2_neg_pc: G2Point,
}

/// What a [`PreparedVerifyingKey`] is, mathematically.
pub struct PreparedVerifyingKeySpec {
    pub vk: VerifyingKeySpec,
    pub alpha_g1_beta_g2: Seq<nat>,
    pub gamma_g2_neg_pc: G2Spec,
    pub delta_g2_neg_pc: G2Spec,
}

impl View for PreparedVerifyingKey {
    type V = PreparedVerifyingKeySpec;

    open spec fn view(&self) -> PreparedVerifyingKeySpec {
        PreparedVerifyingKeySpec {
            vk: self.vk@,
            alpha_g1_beta_g2: self.alpha_g1_beta_g2@,
            gamma_g2_neg_pc: self.gamma_g2_neg_pc@,
            delta_g2_neg_pc: self.delta_g2_neg_pc@,
        }
    }
}

/// A proving key: the verifying key and the bases that the prover sums over.
///
/// The queries hold one base for each column of the constraint system, in
/// the order constant, public inputs, committed witnesses, private
/// witnesses; `l_query` holds one for each private witness, and `h_query`
/// one for each coefficient of the quotient polynomial. The commitment sums
/// over the bases of the committed witnesses in `vk.gamma_abc_g1` and is
/// blinded on `eta_gamma_inv_g1`; `eta_delta_inv_g1` takes the blinding out
/// of `c` again.
#[derive(Clone, Debug, PartialEq, Eq)]
pub struct ProvingKey {
    pub vk: VerifyingKey,
    pub beta_g1: G1Point,
    pub delta_g1: G1Point,
    pub a_query: Vec<G1Point>,
    pub b_g1_query: Vec<G1Point>,
    pub b_g2_query: Vec<G2Point>,
    pub h_query: Vec<G1Point>,
    pub l_query: Vec<G1Point>,
    pub eta_gamma_inv_g1: G1Point,
    pub eta_delta_inv_g1: G1Point,
}

/// What a [`ProvingKey`] is, mathematically.
pub struct ProvingKeySpec {
    pub vk: VerifyingKeySpec,
    pub beta_g1: G1Spec,
    pub delta_g1: G1Spec,
    pub a_query: Seq<G1Spec>,
    pub b_g1_query: Seq<G1Spec>,
    pub b_g2_query: Seq<G2Spec>,
    pub h_query: Seq<G1Spec>,
    pub l_query: Seq<G1Spec>,
    pub eta_gamma_inv_g1: G1Spec,
    pub eta_delta_inv_g1: G1Spec,
}

impl View for ProvingKey {
    type V = ProvingKeySpec;

    open spec fn view(&self) -> ProvingKeySpec {
        ProvingKeySpec {
            vk: self.vk@,
            beta_g1: self.beta_g1@,
            delta_g1: self.delta_g1@,
            a_query: g1_views(self.a_query@),
            b_g1_query: g1_views(self.b_g1_query@),
            b_g2_query: g2_views(self.b_g2_query@),
            h_query: g1_views(self.h_query@),
            l_query: g1_views(self.l_query@),
            eta_gamma_inv_g1: self.eta_gamma_inv_g1@,
            eta_delta_inv_g1: self.eta_delta_inv_g1@,
        }
    }
}

} // verus!

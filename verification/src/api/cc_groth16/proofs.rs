//! Proofs as they travel in JSON.
use crate::api::cc_groth16::commitment::CommitmentWrapper;
use crate::api::cc_groth16::{
    g1_from_hex, g1_hex, g1_point_from_hex, g1_to_hex, g1_travels, g2_from_hex, g2_hex,
    g2_point_from_hex, g2_to_hex, g2_travels,
};
use crate::api::serialize::string_views;
use crate::cc_gro::data_structures::{Proof, ProofSpec};
use crate::error::SynthesisError;
use vstd::prelude::*;

verus! {

/// A proof as it travels in JSON.
#[derive(Clone, Copy, Debug, PartialEq, Eq)]
pub struct ProofWrapper(pub Proof);

/// The three fields of a proof in JSON, each the coordinates of one element
/// in hexadecimal digits. The commitment travels apart.
#[allow(non_snake_case)]
#[derive(Clone, Debug, PartialEq, Eq)]
pub struct ProofFields {
    pub A: Vec<String>,
    pub B: Vec<String>,
    pub C: Vec<String>,
}

/// The proof that fields and a commitment stand for, if `A` and `C` hold
/// the coordinates of a point of `G1` and `B` those of a point of `G2`.
pub open spec fn proof_from_fields(fields: ProofFields, cm: crate::curve::G1Spec) -> Option<ProofSpec> {
    if fields.A.len() < 2 || fields.C.len() < 2 {
        None
    } else {
        match (
            g1_from_hex(fields.A[0]@, fields.A[1]@),
            g2_from_hex(string_views(fields.B@)),
            g1_from_hex(fields.C[0]@, fields.C[1]@),
        ) {
            (Some(a), Some(b), Some(c)) => Some(ProofSpec { a, b, c, cm }),
            _ => None,
        }
    }
}

impl ProofWrapper {
    /// Wrap a proof.
    pub fn new(proof: &Proof) -> (r: ProofWrapper)
        ensures
            r.0 == *proof,
    {
        ProofWrapper(*proof)
    }

    /// The proof.
    pub fn into_proof(self) -> (r: Proof)
        ensures
            r == self.0,
    {
        self.0
    }

    /// The fields to write. Where `A`, `B` and `C` are valid and none of
    /// them is the point at infinity, the fields are read, together with the
    /// commitment, as the proof.
    pub fn to_fields(&self) -> (r: ProofFields)
        ensures
            string_views(r.A@) == g1_hex(self.0@.a),
            string_views(r.B@) == g2_hex(self.0@.b),
            string_views(r.C@) == g1_hex(self.0@.c),
            g1_travels(self.0@.a) && g2_travels(self.0@.b) && g1_travels(self.0@.c)
                ==> proof_from_fields(r, self.0@.cm) == Some(self.0@),
    {
        ProofFields { A: g1_to_hex(&self.0.a), B: g2_to_hex(&self.0.b), C: g1_to_hex(&self.0.c) }
    }

    /// The proof that the fields and the commitment stand for, or
    /// `SerializationError` where a field holds too few strings, a string is
    /// no number, or a point is not valid.
    pub fn from_fields(fields: &ProofFields, commitment: &CommitmentWrapper) -> (r: Result<
        ProofWrapper,
        SynthesisError,
    >)
        ensures
            r.is_ok() <==> proof_from_fields(*fields, commitment.0@).is_some(),
            r matches Ok(p) ==> Some(p.0@) == proof_from_fields(*fields, commitment.0@),
            r matches Err(e) ==> e == SynthesisError::SerializationError,
    {
        if fields.A.len() < 2 || fields.C.len() < 2 {
            return Err(SynthesisError::SerializationError);
        }
        let a = g1_point_from_hex(fields.A[0].as_str(), fields.A[1].as_str());
        let b = g2_point_from_hex(&fields.B);
        let c = g1_point_from_hex(fields.C[0].as_str(), fields.C[1].as_str());
        match (a, b, c) {
            (Some(a), Some(b), Some(c)) => Ok(ProofWrapper(Proof { a, b, c, cm: commitment.0 })),
            _ => Err(SynthesisError::SerializationError),
        }
    }
}

} // verus!

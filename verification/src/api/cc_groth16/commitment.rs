//! The commitment of a proof, on its own.
use crate::api::cc_groth16::{
    g1_from_hex, g1_hex, g1_point_from_hex, g1_travels, lemma_g1_hex_read_back,
};
use crate::field::{fq_modulus, limbs_value};
use crate::curve::{G1Point, G1Spec};
use crate::error::SynthesisError;
use vstd::prelude::*;

verus! {

/// A commitment as it travels in JSON.
#[derive(Clone, Copy, Debug, PartialEq, Eq)]
pub struct CommitmentWrapper(pub G1Point);

/// The two fields of a commitment in JSON: the coordinates in hexadecimal
/// digits.
#[derive(Clone, Debug, PartialEq, Eq)]
pub struct CommitmentFields {
    pub x: String,
    pub y: String,
}

impl CommitmentWrapper {
    /// Wrap a commitment.
    pub fn new(commit: &G1Point) -> (r: CommitmentWrapper)
        ensures
            r.0 == *commit,
    {
        CommitmentWrapper(*commit)
    }

    /// The commitment.
    pub fn commitment(self) -> (r: G1Point)
        ensures
            r == self.0,
    {
        self.0
    }

    /// The fields to write: the coordinates in hexadecimal digits. A valid
    /// commitment other than the point at infinity is the one that its
    /// fields are read as.
    pub fn to_fields(&self) -> (r: CommitmentFields)
        ensures
            seq![r.x@, r.y@] == g1_hex(self.0@),
            g1_travels(self.0@) ==> g1_from_hex(r.x@, r.y@) == Some(self.0@),
    {
        let r = CommitmentFields { x: self.0.x.to_hex(), y: self.0.y.to_hex() };
        proof {
            vstd::arithmetic::div_mod::lemma_mod_bound(
                limbs_value(self.0.x.limbs) as int,
                fq_modulus() as int,
            );
            vstd::arithmetic::div_mod::lemma_mod_bound(
                limbs_value(self.0.y.limbs) as int,
                fq_modulus() as int,
            );
            if g1_travels(self.0@) {
                lemma_g1_hex_read_back(self.0@);
            }
        }
        r
    }

    /// The commitment that the fields stand for, or `SerializationError`
    /// where a field is no number or the point does not lie on the curve.
    pub fn from_fields(fields: &CommitmentFields) -> (r: Result<CommitmentWrapper, SynthesisError>)
        ensures
            r.is_ok() <==> g1_from_hex(fields.x@, fields.y@).is_some(),
            r matches Ok(c) ==> Some(c.0@) == g1_from_hex(fields.x@, fields.y@),
            r matches Err(e) ==> e == SynthesisError::SerializationError,
    {
        match g1_point_from_hex(fields.x.as_str(), fields.y.as_str()) {
            Some(p) => Ok(CommitmentWrapper(p)),
            None => Err(SynthesisError::SerializationError),
        }
    }
}

} // verus!

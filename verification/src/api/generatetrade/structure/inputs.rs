//! A statement with its witnesses.
use crate::api::generatetrade::structure::statement::{
    generatetradeCircuitStatement, generatetradeStatementFields,
};
use crate::api::generatetrade::structure::witnesses::{
    generatetradeCircuitWitnesses, generatetradeWitnessesFields,
};
use crate::api::generatetrade::structure::constants::generatetradeCircuitConstants;
use crate::edwards::{ed_in_prime_subgroup, ed_on_curve, EdPoint};
use crate::error::SynthesisError;
use crate::field::{append_copy, Fr};
use crate::gadget::public_encryptions::elgamal;
use crate::gadget::symmetric_encrytions::symmetric::SymmetricKey;
use crate::generatetrade::generatetradeCircuit;
use vstd::prelude::*;

verus! {

/// What a prover of a generated trade is given.
#[allow(non_camel_case_types)]
#[derive(Clone, Debug, PartialEq, Eq)]
pub struct generatetradeCircuitInputs {
    pub statement: generatetradeCircuitStatement,
    pub witnesses: generatetradeCircuitWitnesses,
}

/// The two fields of the inputs in JSON.
#[allow(non_camel_case_types)]
#[derive(Clone, Debug, PartialEq, Eq)]
pub struct generatetradeInputsFields {
    pub statement: generatetradeStatementFields,
    pub witnesses: generatetradeWitnessesFields,
}

/// The point of the curve with the first two elements of a list for
/// coordinates, if there are two and the point lies on the curve and in its
/// group of prime order.
pub open spec fn point_of(v: Seq<Fr>) -> Option<EdPoint> {
    if v.len() >= 2 && ed_on_curve((v[0]@, v[1]@)) && ed_in_prime_subgroup((v[0]@, v[1]@)) {
        Some(EdPoint { x: v[0], y: v[1] })
    } else {
        None
    }
}

/// The point of the curve with the first two elements of a list for
/// coordinates.
pub fn to_affine(v: &Vec<Fr>) -> (r: Option<EdPoint>)
    ensures
        r == point_of(v@),
{
    if v.len() < 2 {
        return None;
    }
    let p = EdPoint { x: v[0], y: v[1] };
    if p.is_on_curve() && p.is_in_prime_subgroup() {
        Some(p)
    } else {
        None
    }
}

/// A copy of a list.
fn copy_of(v: &Vec<Fr>) -> (r: Vec<Fr>)
    ensures
        r@ == v@,
{
    let mut out: Vec<Fr> = Vec::new();
    append_copy(&mut out, v);
    assert(out@ =~= v@);
    out
}

impl generatetradeCircuitInputs {
    /// Whether each list of coordinates of the inputs gives a point of the
    /// curve.
    pub open spec fn has_points(&self) -> bool {
        &&& point_of(self.statement.G_r@).is_some()
        &&& point_of(self.statement.c1@).is_some()
        &&& point_of(self.witnesses.pk_cons@).is_some()
        &&& point_of(self.witnesses.pk_peer@).is_some()
        &&& point_of(self.witnesses.CT_ord_key@).is_some()
    }

    /// Whether `c` holds the values of the inputs and the constants, every
    /// value assigned.
    pub open spec fn is_circuit(&self, constants: generatetradeCircuitConstants, c: generatetradeCircuit) -> bool {
        &&& c.rc == constants.rc
        &&& c.G.generator == constants.G
        &&& c.cm == Some(self.statement.cm)
        &&& c.G_r == point_of(self.statement.G_r@)
        &&& c.c1 == point_of(self.statement.c1@)
        &&& c.CT_ord matches Some(v) && v@ == self.statement.CT_ord@
        &&& c.ENA_before matches Some(v) && v@ == self.statement.ENA_before@
        &&& c.ENA_after matches Some(v) && v@ == self.statement.ENA_after@
        &&& c.r == Some(self.witnesses.r)
        &&& c.h_k == Some(self.witnesses.h_k)
        &&& c.ENA_writer == Some(self.witnesses.ENA_writer)
        &&& c.pk_cons == point_of(self.witnesses.pk_cons@)
        &&& c.pk_peer == point_of(self.witnesses.pk_peer@)
        &&& c.k_ENA == Some(SymmetricKey { k: self.witnesses.k_ENA })
        &&& c.fee == Some(self.witnesses.fee)
        &&& c.CT_ord_key == point_of(self.witnesses.CT_ord_key@)
        &&& c.CT_ord_key_x == Some(SymmetricKey { k: self.witnesses.CT_ord_key_x })
        &&& c.CT_r == Some(elgamal::Randomness(self.witnesses.CT_r))
    }

    /// The circuit's values for these inputs, or `SerializationError` where
    /// a list of coordinates gives no point of the curve.
    pub fn create_circuit(&self, constants: generatetradeCircuitConstants) -> (r: Result<
        generatetradeCircuit,
        SynthesisError,
    >)
        ensures
            r.is_ok() <==> self.has_points(),
            r matches Ok(c) ==> self.is_circuit(constants, c),
            r matches Err(e) ==> e == SynthesisError::SerializationError,
    {
        let g_r = to_affine(&self.statement.G_r);
        let c1 = to_affine(&self.statement.c1);
        let pk_cons = to_affine(&self.witnesses.pk_cons);
        let pk_peer = to_affine(&self.witnesses.pk_peer);
        let ct_ord_key = to_affine(&self.witnesses.CT_ord_key);
        if g_r.is_none() || c1.is_none() || pk_cons.is_none() || pk_peer.is_none()
            || ct_ord_key.is_none() {
            return Err(SynthesisError::SerializationError);
        }
        Ok(
            generatetradeCircuit {
                rc: constants.rc,
                G: elgamal::Parameters { generator: constants.G },
                cm: Some(self.statement.cm),
                G_r: g_r,
                c1,
                CT_ord: Some(copy_of(&self.statement.CT_ord)),
                ENA_before: Some(copy_of(&self.statement.ENA_before)),
                ENA_after: Some(copy_of(&self.statement.ENA_after)),
                r: Some(self.witnesses.r),
                h_k: Some(self.witnesses.h_k),
                ENA_writer: Some(self.witnesses.ENA_writer),
                pk_cons,
                pk_peer,
                k_ENA: Some(SymmetricKey { k: self.witnesses.k_ENA }),
                fee: Some(self.witnesses.fee),
                CT_ord_key: ct_ord_key,
                CT_ord_key_x: Some(SymmetricKey { k: self.witnesses.CT_ord_key_x }),
                CT_r: Some(elgamal::Randomness(self.witnesses.CT_r)),
            },
        )
    }

    /// The inputs that the fields stand for, or `SerializationError` where a
    /// string of the statement or of the witnesses is no hexadecimal number.
    pub fn from_fields(fields: &generatetradeInputsFields) -> (r: Result<
        generatetradeCircuitInputs,
        SynthesisError,
    >)
        ensures
            r.is_ok() <==> generatetradeCircuitStatement::fields_are_numbers(fields.statement)
                && generatetradeCircuitWitnesses::fields_are_numbers(fields.witnesses),
            r matches Err(e) ==> e == SynthesisError::SerializationError,
            r matches Ok(inputs) ==> inputs.statement.read_from(fields.statement)
                && inputs.witnesses.read_from(fields.witnesses),
    {
        let statement = generatetradeCircuitStatement::from_fields(&fields.statement);
        let witnesses = generatetradeCircuitWitnesses::from_fields(&fields.witnesses);
        match (statement, witnesses) {
            (Ok(statement), Ok(witnesses)) => Ok(generatetradeCircuitInputs { statement, witnesses }),
            _ => Err(SynthesisError::SerializationError),
        }
    }

    /// The fields to write. Each is a number, and what is read from them
    /// has the values of these inputs.
    pub fn to_fields(&self) -> (r: generatetradeInputsFields)
        ensures
            self.statement.written_as(r.statement),
            self.witnesses.written_as(r.witnesses),
            generatetradeCircuitStatement::fields_are_numbers(r.statement),
            generatetradeCircuitWitnesses::fields_are_numbers(r.witnesses),
            self.statement.read_from(r.statement),
            self.witnesses.read_from(r.witnesses),
    {
        generatetradeInputsFields {
            statement: self.statement.to_fields(),
            witnesses: self.witnesses.to_fields(),
        }
    }
}

} // verus!

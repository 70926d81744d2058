//! The public part of a generated trade.
use crate::api::serialize::{
    fr_list_to_hex, hex_digits, hex_list, hex_list_to_fr, hex_value, hex_values, string_views,
};
use crate::error::SynthesisError;
use crate::field::{append_copy, fr_modulus, fr_views, limbs_value, Fr};
use vstd::prelude::*;

verus! {

/// The statement: the commitment of the order, the ciphertexts of the order
/// and of the account before and after, and the two points of the key's
/// encryption, each as its coordinates.
#[allow(non_camel_case_types)]
#[allow(non_snake_case)]
#[derive(Clone, Debug, PartialEq, Eq)]
pub struct generatetradeCircuitStatement {
    pub cm: Fr,
    pub CT_ord: Vec<Fr>,
    pub ENA_before: Vec<Fr>,
    pub ENA_after: Vec<Fr>,
    pub c1: Vec<Fr>,
    pub G_r: Vec<Fr>,
}

/// The fields of a statement in JSON: each field element in hexadecimal
/// digits.
#[allow(non_camel_case_types)]
#[allow(non_snake_case)]
#[derive(Clone, Debug, PartialEq, Eq)]
pub struct generatetradeStatementFields {
    pub cm: String,
    pub G_r: Vec<String>,
    pub c1: Vec<String>,
    pub CT_ord: Vec<String>,
    pub ENA_before: Vec<String>,
    pub ENA_after: Vec<String>,
}

/// The residues of a list of hexadecimal strings, if each is a number.
pub open spec fn list_values(v: Vec<String>) -> Option<Seq<nat>> {
    hex_values(string_views(v@), v.len() as nat)
}

impl generatetradeCircuitStatement {
    /// The public inputs in the order in which the circuit allocates them:
    /// `cm`, `CT_ord`, `ENA_before`, `ENA_after`, `G_r`, `c1`.
    pub open spec fn public_inputs(&self) -> Seq<Fr> {
        seq![self.cm] + self.CT_ord@ + self.ENA_before@ + self.ENA_after@ + self.G_r@ + self.c1@
    }

    /// The public inputs in the order in which the circuit allocates them.
    pub fn to_vec(&self) -> (r: Result<Vec<Fr>, SynthesisError>)
        ensures
            r matches Ok(v) && v@ == self.public_inputs(),
    {
        let mut v: Vec<Fr> = Vec::new();
        v.push(self.cm);
        assert(v@ =~= seq![self.cm]);
        append_copy(&mut v, &self.CT_ord);
        append_copy(&mut v, &self.ENA_before);
        append_copy(&mut v, &self.ENA_after);
        append_copy(&mut v, &self.G_r);
        append_copy(&mut v, &self.c1);
        Ok(v)
    }

    /// Whether `r` holds each element of the statement in hexadecimal
    /// digits.
    pub open spec fn written_as(&self, r: generatetradeStatementFields) -> bool {
        &&& r.cm@ == hex_digits(self.cm@)
        &&& string_views(r.G_r@) == hex_list(fr_views(self.G_r@))
        &&& string_views(r.c1@) == hex_list(fr_views(self.c1@))
        &&& string_views(r.CT_ord@) == hex_list(fr_views(self.CT_ord@))
        &&& string_views(r.ENA_before@) == hex_list(fr_views(self.ENA_before@))
        &&& string_views(r.ENA_after@) == hex_list(fr_views(self.ENA_after@))
    }

    /// Whether the statement holds the residues that the strings of `fields`
    /// stand for.
    pub open spec fn read_from(&self, fields: generatetradeStatementFields) -> bool {
        &&& self.cm@ == hex_value(fields.cm@).unwrap() % fr_modulus()
        &&& Some(fr_views(self.G_r@)) == list_values(fields.G_r)
        &&& Some(fr_views(self.c1@)) == list_values(fields.c1)
        &&& Some(fr_views(self.CT_ord@)) == list_values(fields.CT_ord)
        &&& Some(fr_views(self.ENA_before@)) == list_values(fields.ENA_before)
        &&& Some(fr_views(self.ENA_after@)) == list_values(fields.ENA_after)
    }

    /// Whether two statements hold the same residues.
    pub open spec fn same_values(&self, other: generatetradeCircuitStatement) -> bool {
        &&& self.cm@ == other.cm@
        &&& fr_views(self.G_r@) == fr_views(other.G_r@)
        &&& fr_views(self.c1@) == fr_views(other.c1@)
        &&& fr_views(self.CT_ord@) == fr_views(other.CT_ord@)
        &&& fr_views(self.ENA_before@) == fr_views(other.ENA_before@)
        &&& fr_views(self.ENA_after@) == fr_views(other.ENA_after@)
    }

    /// Reading what was written gives the values that were written: a
    /// statement read from the fields of another holds the same residues.
    pub proof fn lemma_read_what_was_written(
        &self,
        fields: generatetradeStatementFields,
        other: generatetradeCircuitStatement,
    )
        requires
            self.read_from(fields),
            other.read_from(fields),
        ensures
            other.same_values(*self),
    {
    }

    /// The fields to write. Each is a number, and what is read from them
    /// has the values of this statement.
    pub fn to_fields(&self) -> (r: generatetradeStatementFields)
        ensures
            self.written_as(r),
            Self::fields_are_numbers(r),
            self.read_from(r),
    {
        proof {
            vstd::arithmetic::div_mod::lemma_mod_twice(
                limbs_value(self.cm.limbs) as int,
                fr_modulus() as int,
            );
        }
        generatetradeStatementFields {
            cm: self.cm.to_hex(),
            G_r: fr_list_to_hex(&self.G_r),
            c1: fr_list_to_hex(&self.c1),
            CT_ord: fr_list_to_hex(&self.CT_ord),
            ENA_before: fr_list_to_hex(&self.ENA_before),
            ENA_after: fr_list_to_hex(&self.ENA_after),
        }
    }

    /// Whether every string of the fields is a hexadecimal number.
    pub open spec fn fields_are_numbers(fields: generatetradeStatementFields) -> bool {
        &&& hex_value(fields.cm@).is_some()
        &&& list_values(fields.G_r).is_some()
        &&& list_values(fields.c1).is_some()
        &&& list_values(fields.CT_ord).is_some()
        &&& list_values(fields.ENA_before).is_some()
        &&& list_values(fields.ENA_after).is_some()
    }

    /// The statement that the fields stand for, or `SerializationError`
    /// where a string is no hexadecimal number.
    pub fn from_fields(fields: &generatetradeStatementFields) -> (r: Result<
        generatetradeCircuitStatement,
        SynthesisError,
    >)
        ensures
            r.is_ok() <==> Self::fields_are_numbers(*fields),
            r matches Err(e) ==> e == SynthesisError::SerializationError,
            r matches Ok(s) ==> s.read_from(*fields),
    {
        let cm = Fr::from_hex(fields.cm.as_str());
        let g_r = hex_list_to_fr(&fields.G_r);
        let c1 = hex_list_to_fr(&fields.c1);
        let ct_ord = hex_list_to_fr(&fields.CT_ord);
        let ena_before = hex_list_to_fr(&fields.ENA_before);
        let ena_after = hex_list_to_fr(&fields.ENA_after);
        match (cm, g_r, c1, ct_ord, ena_before, ena_after) {
            (Some(cm), Some(g_r), Some(c1), Some(ct_ord), Some(ena_before), Some(ena_after)) => Ok(
                generatetradeCircuitStatement {
                    cm,
                    CT_ord: ct_ord,
                    ENA_before: ena_before,
                    ENA_after: ena_after,
                    c1,
                    G_r: g_r,
                },
            ),
            _ => Err(SynthesisError::SerializationError),
        }
    }
}

} // verus!

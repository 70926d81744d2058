//! The private part of a generated trade.
use crate::api::generatetrade::structure::statement::list_values;
use crate::api::serialize::{
    fr_list_to_hex, hex_digits, hex_list, hex_list_to_fr, hex_value, string_views,
};
use crate::error::SynthesisError;
use crate::field::{fr_modulus, fr_views, limbs_value, Fr};
use crate::edwards::{ed_order, EdScalar};
use vstd::prelude::*;

verus! {

/// The witnesses: the opening of the order's commitment, the keys of the
/// two parties as coordinates, the key of the account, the fee, and the
/// order's key with the randomness of its encryption.
#[allow(non_camel_case_types)]
#[allow(non_snake_case)]
#[derive(Clone, Debug, PartialEq, Eq)]
pub struct generatetradeCircuitWitnesses {
    pub r: Fr,
    pub h_k: Fr,
    pub ENA_writer: Fr,
    pub pk_cons: Vec<Fr>,
    pub pk_peer: Vec<Fr>,
    pub k_ENA: Fr,
    pub fee: Fr,
    pub CT_ord_key: Vec<Fr>,
    pub CT_ord_key_x: Fr,
    pub CT_r: EdScalar,
}

/// The fields of the witnesses in JSON: each element in hexadecimal digits.
#[allow(non_camel_case_types)]
#[allow(non_snake_case)]
#[derive(Clone, Debug, PartialEq, Eq)]
pub struct generatetradeWitnessesFields {
    pub r: String,
    pub h_k: String,
    pub ENA_writer: String,
    pub pk_cons: Vec<String>,
    pub pk_peer: Vec<String>,
    pub k_ENA: String,
    pub fee: String,
    pub CT_ord_key: Vec<String>,
    pub CT_ord_key_x: String,
    pub CT_r: String,
}

impl generatetradeCircuitWitnesses {
    /// Whether `f` holds each element of the witnesses in hexadecimal
    /// digits.
    pub open spec fn written_as(&self, f: generatetradeWitnessesFields) -> bool {
        &&& f.r@ == hex_digits(self.r@)
        &&& f.h_k@ == hex_digits(self.h_k@)
        &&& f.ENA_writer@ == hex_digits(self.ENA_writer@)
        &&& string_views(f.pk_cons@) == hex_list(fr_views(self.pk_cons@))
        &&& string_views(f.pk_peer@) == hex_list(fr_views(self.pk_peer@))
        &&& f.k_ENA@ == hex_digits(self.k_ENA@)
        &&& f.fee@ == hex_digits(self.fee@)
        &&& string_views(f.CT_ord_key@) == hex_list(fr_views(self.CT_ord_key@))
        &&& f.CT_ord_key_x@ == hex_digits(self.CT_ord_key_x@)
        &&& f.CT_r@ == hex_digits(self.CT_r@)
    }

    /// Whether the witnesses hold the residues that the strings of `f` stand
    /// for.
    pub open spec fn read_from(&self, f: generatetradeWitnessesFields) -> bool {
        &&& self.r@ == hex_value(f.r@).unwrap() % fr_modulus()
        &&& self.h_k@ == hex_value(f.h_k@).unwrap() % fr_modulus()
        &&& self.ENA_writer@ == hex_value(f.ENA_writer@).unwrap() % fr_modulus()
        &&& Some(fr_views(self.pk_cons@)) == list_values(f.pk_cons)
        &&& Some(fr_views(self.pk_peer@)) == list_values(f.pk_peer)
        &&& self.k_ENA@ == hex_value(f.k_ENA@).unwrap() % fr_modulus()
        &&& self.fee@ == hex_value(f.fee@).unwrap() % fr_modulus()
        &&& Some(fr_views(self.CT_ord_key@)) == list_values(f.CT_ord_key)
        &&& self.CT_ord_key_x@ == hex_value(f.CT_ord_key_x@).unwrap() % fr_modulus()
        &&& self.CT_r@ == hex_value(f.CT_r@).unwrap() % ed_order()
    }

    /// Whether two sets of witnesses hold the same residues.
    pub open spec fn same_values(&self, other: generatetradeCircuitWitnesses) -> bool {
        &&& self.r@ == other.r@
        &&& self.h_k@ == other.h_k@
        &&& self.ENA_writer@ == other.ENA_writer@
        &&& fr_views(self.pk_cons@) == fr_views(other.pk_cons@)
        &&& fr_views(self.pk_peer@) == fr_views(other.pk_peer@)
        &&& self.k_ENA@ == other.k_ENA@
        &&& self.fee@ == other.fee@
        &&& fr_views(self.CT_ord_key@) == fr_views(other.CT_ord_key@)
        &&& self.CT_ord_key_x@ == other.CT_ord_key_x@
        &&& self.CT_r@ == other.CT_r@
    }

    /// Reading what was written gives the values that were written:
    /// witnesses read from the fields of others hold the same residues.
    pub proof fn lemma_read_what_was_written(
        &self,
        f: generatetradeWitnessesFields,
        other: generatetradeCircuitWitnesses,
    )
        requires
            self.read_from(f),
            other.read_from(f),
        ensures
            other.same_values(*self),
    {
    }

    /// The fields to write. Each is a number, and what is read from them
    /// has the values of these witnesses.
    pub fn to_fields(&self) -> (f: generatetradeWitnessesFields)
        ensures
            self.written_as(f),
            Self::fields_are_numbers(f),
            self.read_from(f),
    {
        proof {
            let m = fr_modulus() as int;
            vstd::arithmetic::div_mod::lemma_mod_twice(limbs_value(self.r.limbs) as int, m);
            vstd::arithmetic::div_mod::lemma_mod_twice(limbs_value(self.h_k.limbs) as int, m);
            vstd::arithmetic::div_mod::lemma_mod_twice(limbs_value(self.ENA_writer.limbs) as int, m);
            vstd::arithmetic::div_mod::lemma_mod_twice(limbs_value(self.k_ENA.limbs) as int, m);
            vstd::arithmetic::div_mod::lemma_mod_twice(limbs_value(self.fee.limbs) as int, m);
            vstd::arithmetic::div_mod::lemma_mod_twice(
                limbs_value(self.CT_ord_key_x.limbs) as int,
                m,
            );
            vstd::arithmetic::div_mod::lemma_mod_twice(
                limbs_value(self.CT_r.limbs) as int,
                ed_order() as int,
            );
        }
        generatetradeWitnessesFields {
            r: self.r.to_hex(),
            h_k: self.h_k.to_hex(),
            ENA_writer: self.ENA_writer.to_hex(),
            pk_cons: fr_list_to_hex(&self.pk_cons),
            pk_peer: fr_list_to_hex(&self.pk_peer),
            k_ENA: self.k_ENA.to_hex(),
            fee: self.fee.to_hex(),
            CT_ord_key: fr_list_to_hex(&self.CT_ord_key),
            CT_ord_key_x: self.CT_ord_key_x.to_hex(),
            CT_r: self.CT_r.to_hex(),
        }
    }

    /// Whether every string of the fields is a hexadecimal number.
    pub open spec fn fields_are_numbers(f: generatetradeWitnessesFields) -> bool {
        &&& hex_value(f.r@).is_some()
        &&& hex_value(f.h_k@).is_some()
        &&& hex_value(f.ENA_writer@).is_some()
        &&& list_values(f.pk_cons).is_some()
        &&& list_values(f.pk_peer).is_some()
        &&& hex_value(f.k_ENA@).is_some()
        &&& hex_value(f.fee@).is_some()
        &&& list_values(f.CT_ord_key).is_some()
        &&& hex_value(f.CT_ord_key_x@).is_some()
        &&& hex_value(f.CT_r@).is_some()
    }

    /// The witnesses that the fields stand for, or `SerializationError`
    /// where a string is no hexadecimal number.
    pub fn from_fields(f: &generatetradeWitnessesFields) -> (r: Result<
        generatetradeCircuitWitnesses,
        SynthesisError,
    >)
        ensures
            r.is_ok() <==> Self::fields_are_numbers(*f),
            r matches Err(e) ==> e == SynthesisError::SerializationError,
            r matches Ok(w) ==> w.read_from(*f),
    {
        let r = Fr::from_hex(f.r.as_str());
        let h_k = Fr::from_hex(f.h_k.as_str());
        let ena_writer = Fr::from_hex(f.ENA_writer.as_str());
        let pk_cons = hex_list_to_fr(&f.pk_cons);
        let pk_peer = hex_list_to_fr(&f.pk_peer);
        let k_ena = Fr::from_hex(f.k_ENA.as_str());
        let fee = Fr::from_hex(f.fee.as_str());
        let ct_ord_key = hex_list_to_fr(&f.CT_ord_key);
        let ct_ord_key_x = Fr::from_hex(f.CT_ord_key_x.as_str());
        let ct_r = EdScalar::from_hex(f.CT_r.as_str());
        match (r, h_k, ena_writer, pk_cons, pk_peer) {
            (Some(r), Some(h_k), Some(ena_writer), Some(pk_cons), Some(pk_peer)) => match (
                k_ena,
                fee,
                ct_ord_key,
                ct_ord_key_x,
                ct_r,
            ) {
                (Some(k_ena), Some(fee), Some(ct_ord_key), Some(ct_ord_key_x), Some(ct_r)) => Ok(
                    generatetradeCircuitWitnesses {
                        r,
                        h_k,
                        ENA_writer: ena_writer,
                        pk_cons,
                        pk_peer,
                        k_ENA: k_ena,
                        fee,
                        CT_ord_key: ct_ord_key,
                        CT_ord_key_x: ct_ord_key_x,
                        CT_r: ct_r,
                    },
                ),
                _ => Err(SynthesisError::SerializationError),
            },
            _ => Err(SynthesisError::SerializationError),
        }
    }
}

} // verus!

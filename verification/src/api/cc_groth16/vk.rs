//! Verifying keys as they travel in JSON, and as a smart contract takes
//! them.
use crate::api::cc_groth16::{
    g1_all_travel, g1_from_hex, g1_hex, g1_point_from_hex, g1_run_from_hex,
    g1_run_from_hex_list, g1_run_hex, g1_run_to_hex, g1_to_hex, g1_travels, g2_from_hex, g2_hex,
    g2_point_from_hex, g2_to_hex,
};
use crate::api::rw::vk_is_valid;
use crate::encoding::g1_is_valid;
use crate::api::serialize::{contract_word, hex_digits, string_views, to_contract_word};
use crate::cc_gro::data_structures::{VerifyingKey, VerifyingKeySpec};
use crate::cc_gro::verifying::copy_key;
use crate::curve::{g1_views, g2_negated, G1Spec, G2Point, G2Spec};
use crate::error::SynthesisError;
use vstd::prelude::*;

verus! {

/// A verifying key as it travels in JSON.
#[derive(Clone, Debug, PartialEq, Eq)]
pub struct VerifyingKeyWrapper(pub VerifyingKey);

/// The five fields of a verifying key in JSON, each the coordinates of its
/// elements in hexadecimal digits.
#[allow(non_snake_case)]
#[derive(Clone, Debug, PartialEq, Eq)]
pub struct VerifyingKeyFields {
    pub Alpha_g1: Vec<String>,
    pub Beta_g2: Vec<String>,
    pub Gamma_g2: Vec<String>,
    pub Delta_g2: Vec<String>,
    pub Gamma_abc_g1: Vec<String>,
}

/// The residue of a coordinate as a word of a smart contract.
pub open spec fn word(v: nat) -> Seq<char> {
    contract_word(hex_digits(v))
}

/// The words of the inverse of a point of `G2`: of each coordinate the
/// second coefficient before the first.
pub open spec fn g2_words(p: G2Spec) -> Seq<Seq<char>> {
    let n = g2_negated(p);
    seq![word(n.x.1), word(n.x.0), word(n.y.1), word(n.y.0)]
}

/// The words of the first `n` points of a list, two for each.
pub open spec fn g1_run_words(points: Seq<G1Spec>, n: nat) -> Seq<Seq<char>>
    decreases n,
{
    if n == 0 {
        Seq::empty()
    } else {
        g1_run_words(points, (n - 1) as nat).push(word(points[n - 1].x)).push(
            word(points[n - 1].y),
        )
    }
}

/// The arguments of a verifying key for a smart contract: `alpha_g1`, the
/// inverses of `beta_g2`, `gamma_g2` and `delta_g2`, then the bases of
/// `gamma_abc_g1`.
pub open spec fn contract_args(vk: VerifyingKeySpec) -> Seq<Seq<char>> {
    seq![word(vk.alpha_g1.x), word(vk.alpha_g1.y)] + g2_words(vk.beta_g2) + g2_words(vk.gamma_g2)
        + g2_words(vk.delta_g2) + g1_run_words(vk.gamma_abc_g1, vk.gamma_abc_g1.len())
}

/// Whether no element of a verifying key is the point at infinity, which
/// has no coordinates to write.
pub open spec fn has_coordinates(vk: VerifyingKeySpec) -> bool {
    &&& !vk.alpha_g1.infinity
    &&& !vk.beta_g2.infinity
    &&& !vk.gamma_g2.infinity
    &&& !vk.delta_g2.infinity
    &&& forall|i: int| 0 <= i < vk.gamma_abc_g1.len() ==> !(#[trigger] vk.gamma_abc_g1[i]).infinity
}

/// The verifying key that fields stand for, if each holds the coordinates of
/// valid points.
pub open spec fn vk_from_fields(fields: VerifyingKeyFields) -> Option<VerifyingKeySpec> {
    if fields.Alpha_g1.len() < 2 || fields.Gamma_abc_g1.len() % 2 != 0 {
        None
    } else {
        match (
            g1_from_hex(fields.Alpha_g1[0]@, fields.Alpha_g1[1]@),
            g2_from_hex(string_views(fields.Beta_g2@)),
            g2_from_hex(string_views(fields.Gamma_g2@)),
            g2_from_hex(string_views(fields.Delta_g2@)),
            g1_run_from_hex(
                string_views(fields.Gamma_abc_g1@),
                (fields.Gamma_abc_g1.len() / 2) as nat,
            ),
        ) {
            (Some(alpha_g1), Some(beta_g2), Some(gamma_g2), Some(delta_g2), Some(gamma_abc_g1)) => Some(
                VerifyingKeySpec { alpha_g1, beta_g2, gamma_g2, delta_g2, gamma_abc_g1 },
            ),
            _ => None,
        }
    }
}

/// Append the words of the inverse of `p` to `out`.
fn push_g2_words(out: &mut Vec<String>, p: &G2Point)
    ensures
        string_views(final(out)@) == string_views(old(out)@) + g2_words(p@),
{
    let ghost before = string_views(out@);
    let n = p.neg();
    let a = to_contract_word(n.x.c1.to_hex().as_str());
    let b = to_contract_word(n.x.c0.to_hex().as_str());
    let c = to_contract_word(n.y.c1.to_hex().as_str());
    let d = to_contract_word(n.y.c0.to_hex().as_str());
    let ghost words = seq![a@, b@, c@, d@];
    out.push(a);
    out.push(b);
    out.push(c);
    out.push(d);
    assert(string_views(out@) =~= before + words);
}

impl VerifyingKey {
    /// Whether no element of the key is the point at infinity, so that the
    /// key can be written by its coordinates.
    pub fn has_coordinates(&self) -> (ok: bool)
        ensures
            ok == has_coordinates(self@),
    {
        if self.alpha_g1.infinity || self.beta_g2.infinity || self.gamma_g2.infinity
            || self.delta_g2.infinity {
            return false;
        }
        let mut i: usize = 0;
        while i < self.gamma_abc_g1.len()
            invariant
                i <= self.gamma_abc_g1.len(),
                forall|j: int| 0 <= j < i ==> !(#[trigger] self@.gamma_abc_g1[j]).infinity,
            decreases self.gamma_abc_g1.len() - i,
        {
            if self.gamma_abc_g1[i].infinity {
                assert(self@.gamma_abc_g1[i as int].infinity);
                return false;
            }
            i += 1;
        }
        true
    }
}

impl VerifyingKeyWrapper {
    /// Wrap a copy of a verifying key.
    pub fn new(vk: &VerifyingKey) -> (r: VerifyingKeyWrapper)
        ensures
            r.0@ == vk@,
    {
        VerifyingKeyWrapper(copy_key(vk))
    }

    /// The verifying key.
    pub fn vk(self) -> (r: VerifyingKey)
        ensures
            r == self.0,
    {
        self.0
    }

    /// The arguments of the key for a smart contract.
    pub fn vk_to_contract_args(&self) -> (r: Vec<String>)
        requires
            has_coordinates(self.0@),
        ensures
            string_views(r@) == contract_args(self.0@),
    {
        let vk = &self.0;
        let ghost views = g1_views(vk.gamma_abc_g1@);
        let mut out: Vec<String> = Vec::new();
        let x = to_contract_word(vk.alpha_g1.x.to_hex().as_str());
        let y = to_contract_word(vk.alpha_g1.y.to_hex().as_str());
        let ghost head = seq![x@, y@];
        out.push(x);
        out.push(y);
        assert(string_views(out@) =~= head);
        push_g2_words(&mut out, &vk.beta_g2);
        push_g2_words(&mut out, &vk.gamma_g2);
        push_g2_words(&mut out, &vk.delta_g2);
        let ghost fixed = string_views(out@);
        assert(fixed + Seq::<Seq<char>>::empty() =~= fixed);
        let mut i: usize = 0;
        while i < vk.gamma_abc_g1.len()
            invariant
                i <= vk.gamma_abc_g1.len(),
                views == g1_views(vk.gamma_abc_g1@),
                string_views(out@) == fixed + g1_run_words(views, i as nat),
            decreases vk.gamma_abc_g1.len() - i,
        {
            let ghost before = string_views(out@);
            let x = to_contract_word(vk.gamma_abc_g1[i].x.to_hex().as_str());
            let y = to_contract_word(vk.gamma_abc_g1[i].y.to_hex().as_str());
            let ghost xs = x@;
            let ghost ys = y@;
            out.push(x);
            out.push(y);
            assert(string_views(out@) =~= before.push(xs).push(ys));
            assert(before.push(xs).push(ys) =~= fixed + g1_run_words(views, (i + 1) as nat));
            i += 1;
        }
        out
    }

    /// The fields to write. A key whose elements are valid, none of them the
    /// point at infinity, is the key that its fields are read as.
    pub fn to_fields(&self) -> (r: VerifyingKeyFields)
        ensures
            string_views(r.Alpha_g1@) == g1_hex(self.0@.alpha_g1),
            string_views(r.Beta_g2@) == g2_hex(self.0@.beta_g2),
            string_views(r.Gamma_g2@) == g2_hex(self.0@.gamma_g2),
            string_views(r.Delta_g2@) == g2_hex(self.0@.delta_g2),
            string_views(r.Gamma_abc_g1@) == g1_run_hex(
                self.0@.gamma_abc_g1,
                self.0@.gamma_abc_g1.len(),
            ),
            vk_is_valid(self.0@) && has_coordinates(self.0@) ==> vk_from_fields(r) == Some(self.0@),
    {
        proof {
            if vk_is_valid(self.0@) && has_coordinates(self.0@) {
                assert(g1_all_travel(g1_views(self.0.gamma_abc_g1@))) by {
                    assert forall|i: int|
                        0 <= i < self.0@.gamma_abc_g1.len() implies g1_travels(
                        #[trigger] self.0@.gamma_abc_g1[i],
                    ) by {
                        assert(g1_is_valid(self.0@.gamma_abc_g1[i]));
                    }
                }
            }
        }
        VerifyingKeyFields {
            Alpha_g1: g1_to_hex(&self.0.alpha_g1),
            Beta_g2: g2_to_hex(&self.0.beta_g2),
            Gamma_g2: g2_to_hex(&self.0.gamma_g2),
            Delta_g2: g2_to_hex(&self.0.delta_g2),
            Gamma_abc_g1: g1_run_to_hex(&self.0.gamma_abc_g1),
        }
    }

    /// The key that the fields stand for, or `SerializationError` where a
    /// field holds too few strings, a string is no number, or a point is not
    /// valid.
    pub fn from_fields(fields: &VerifyingKeyFields) -> (r: Result<VerifyingKeyWrapper, SynthesisError>)
        ensures
            r.is_ok() <==> vk_from_fields(*fields).is_some(),
            r matches Ok(w) ==> Some(w.0@) == vk_from_fields(*fields),
            r matches Err(e) ==> e == SynthesisError::SerializationError,
    {
        if fields.Alpha_g1.len() < 2 {
            return Err(SynthesisError::SerializationError);
        }
        let alpha_g1 = g1_point_from_hex(fields.Alpha_g1[0].as_str(), fields.Alpha_g1[1].as_str());
        let beta_g2 = g2_point_from_hex(&fields.Beta_g2);
        let gamma_g2 = g2_point_from_hex(&fields.Gamma_g2);
        let delta_g2 = g2_point_from_hex(&fields.Delta_g2);
        let gamma_abc_g1 = g1_run_from_hex_list(&fields.Gamma_abc_g1);
        match (alpha_g1, beta_g2, gamma_g2, delta_g2, gamma_abc_g1) {
            (Some(alpha_g1), Some(beta_g2), Some(gamma_g2), Some(delta_g2), Some(gamma_abc_g1)) => Ok(
                VerifyingKeyWrapper(
                    VerifyingKey { alpha_g1, beta_g2, gamma_g2, delta_g2, gamma_abc_g1 },
                ),
            ),
            _ => Err(SynthesisError::SerializationError),
        }
    }
}

} // verus!

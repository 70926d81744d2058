//! Keys and proofs as bytes.
//!
//! A key or a proof is written as its group elements one after the other,
//! each in its encoding of fixed size, with nothing in between: how many
//! there are follows from the length, or from the circuit's shape. Reading
//! checks every element and answers `SerializationError` where the length
//! is wrong or an element is not valid.
use crate::cc_gro::data_structures::{
    PreparedVerifyingKey, PreparedVerifyingKeySpec, Proof, ProofSpec, ProvingKey, ProvingKeySpec,
    VerifyingKey, VerifyingKeySpec,
};
use crate::curve::{g1_views, g2_views, G1Point, G1Spec, G2Point, G2Spec};
use crate::encoding::{
    decode_g1, decode_g1_run, decode_g2, decode_g2_run, decode_gt, encode_g1, encode_g1_run,
    encode_g2, encode_g2_run, encode_gt, g1_all_valid, g1_decoding, g1_encoding, g1_is_valid,
    g1_len, g1_run_decoding, g1_run_encoding, g2_all_valid, g2_decoding, g2_encoding,
    g2_is_valid, g2_len, g2_run_decoding, g2_run_encoding, gt_decoding, gt_encoding, gt_is_valid,
    gt_len,
};
use crate::cc_gro::generator::{is_key_of, is_setup_outcome, setup_refusal, Trapdoor};
use crate::cc_gro::r1cs_to_qap::{
    domain_size_of, evaluation_domain_size, is_domain_size, is_domain_size_for,
    is_qap_evaluation, QapEvaluation,
};
use crate::cc_gro::prover::proving_outcome;
use crate::cc_gro::verifying::{prepared, verification};
use crate::error::SynthesisError;
use crate::field::Fr;
use crate::r1cs::ConstraintMatrices;
use vstd::prelude::*;
use vstd::slice::slice_subrange;

verus! {

/// Whether keys are written compressed where the caller does not say.
pub const COMPRESS_DEFAULT: bool = false;

/// Whether every element of a proof is valid.
pub open spec fn proof_is_valid(p: ProofSpec) -> bool {
    g1_is_valid(p.a) && g2_is_valid(p.b) && g1_is_valid(p.c) && g1_is_valid(p.cm)
}

/// The bytes of a proof: `a`, `b`, `c`, `cm`.
pub open spec fn proof_encoding(p: ProofSpec, compressed: bool) -> Seq<u8> {
    g1_encoding(p.a, compressed) + g2_encoding(p.b, compressed) + g1_encoding(p.c, compressed)
        + g1_encoding(p.cm, compressed)
}

/// The proof that bytes stand for, if they stand for one.
pub open spec fn proof_decoding(bytes: Seq<u8>, compressed: bool) -> Option<ProofSpec> {
    let l1 = g1_len(compressed) as int;
    let l2 = g2_len(compressed) as int;
    if bytes.len() != 3 * l1 + l2 {
        None
    } else {
        match (
            g1_decoding(bytes.subrange(0, l1), compressed),
            g2_decoding(bytes.subrange(l1, l1 + l2), compressed),
            g1_decoding(bytes.subrange(l1 + l2, 2 * l1 + l2), compressed),
            g1_decoding(bytes.subrange(2 * l1 + l2, 3 * l1 + l2), compressed),
        ) {
            (Some(a), Some(b), Some(c), Some(cm)) => Some(ProofSpec { a, b, c, cm }),
            _ => None,
        }
    }
}

/// Whether every element of a verifying key is valid.
pub open spec fn vk_is_valid(vk: VerifyingKeySpec) -> bool {
    g1_is_valid(vk.alpha_g1) && g2_is_valid(vk.beta_g2) && g2_is_valid(vk.gamma_g2)
        && g2_is_valid(vk.delta_g2) && g1_all_valid(vk.gamma_abc_g1)
}

/// The number of bytes that the four single elements of a verifying key take.
pub open spec fn vk_header_len(compressed: bool) -> nat {
    g1_len(compressed) + 3 * g2_len(compressed)
}

/// The bytes of a verifying key: `alpha_g1`, `beta_g2`, `gamma_g2`,
/// `delta_g2`, then the bases of `gamma_abc_g1`.
pub open spec fn vk_encoding(vk: VerifyingKeySpec, compressed: bool) -> Seq<u8> {
    g1_encoding(vk.alpha_g1, compressed) + g2_encoding(vk.beta_g2, compressed) + g2_encoding(
        vk.gamma_g2,
        compressed,
    ) + g2_encoding(vk.delta_g2, compressed) + g1_run_encoding(
        vk.gamma_abc_g1,
        vk.gamma_abc_g1.len(),
        compressed,
    )
}

/// The verifying key that bytes stand for, if they stand for one. What
/// follows the four single elements has to be a whole number of bases.
pub open spec fn vk_decoding(bytes: Seq<u8>, compressed: bool) -> Option<VerifyingKeySpec> {
    let l1 = g1_len(compressed) as int;
    let l2 = g2_len(compressed) as int;
    let header = vk_header_len(compressed) as int;
    if bytes.len() < header || (bytes.len() - header) % l1 != 0 {
        None
    } else {
        match (
            g1_decoding(bytes.subrange(0, l1), compressed),
            g2_decoding(bytes.subrange(l1, l1 + l2), compressed),
            g2_decoding(bytes.subrange(l1 + l2, l1 + 2 * l2), compressed),
            g2_decoding(bytes.subrange(l1 + 2 * l2, header), compressed),
            g1_run_decoding(
                bytes.subrange(header, bytes.len() as int),
                ((bytes.len() - header) / l1) as nat,
                compressed,
            ),
        ) {
            (Some(alpha_g1), Some(beta_g2), Some(gamma_g2), Some(delta_g2), Some(gamma_abc_g1)) => Some(
                VerifyingKeySpec { alpha_g1, beta_g2, gamma_g2, delta_g2, gamma_abc_g1 },
            ),
            _ => None,
        }
    }
}

/// Whether every element of a prepared verifying key is valid.
pub open spec fn pvk_is_valid(pvk: PreparedVerifyingKeySpec) -> bool {
    vk_is_valid(pvk.vk) && gt_is_valid(pvk.alpha_g1_beta_g2) && g2_is_valid(pvk.gamma_g2_neg_pc)
        && g2_is_valid(pvk.delta_g2_neg_pc)
}

/// The number of bytes that follow the verifying key in a prepared one.
pub open spec fn pvk_tail_len(compressed: bool) -> nat {
    gt_len() + 2 * g2_len(compressed)
}

/// The bytes of a prepared verifying key: the verifying key, then
/// `alpha_g1_beta_g2`, `gamma_g2_neg_pc` and `delta_g2_neg_pc`.
pub open spec fn pvk_encoding(pvk: PreparedVerifyingKeySpec, compressed: bool) -> Seq<u8> {
    vk_encoding(pvk.vk, compressed) + gt_encoding(pvk.alpha_g1_beta_g2) + g2_encoding(
        pvk.gamma_g2_neg_pc,
        compressed,
    ) + g2_encoding(pvk.delta_g2_neg_pc, compressed)
}

/// The prepared verifying key that bytes stand for, if they stand for one.
pub open spec fn pvk_decoding(bytes: Seq<u8>, compressed: bool) -> Option<PreparedVerifyingKeySpec> {
    let l2 = g2_len(compressed) as int;
    let tail = pvk_tail_len(compressed) as int;
    if bytes.len() < tail {
        None
    } else {
        let split = bytes.len() - tail;
        match (
            vk_decoding(bytes.subrange(0, split), compressed),
            gt_decoding(bytes.subrange(split, split + gt_len())),
            g2_decoding(bytes.subrange(split + gt_len(), split + gt_len() + l2), compressed),
            g2_decoding(bytes.subrange(split + gt_len() + l2, bytes.len() as int), compressed),
        ) {
            (Some(vk), Some(alpha_g1_beta_g2), Some(gamma_g2_neg_pc), Some(delta_g2_neg_pc)) => Some(
                PreparedVerifyingKeySpec { vk, alpha_g1_beta_g2, gamma_g2_neg_pc, delta_g2_neg_pc },
            ),
            _ => None,
        }
    }
}

/// Four byte sequences one after the other hold each of them in its place.
proof fn lemma_four_parts(a: Seq<u8>, b: Seq<u8>, c: Seq<u8>, d: Seq<u8>)
    ensures
        (a + b + c + d).len() == a.len() + b.len() + c.len() + d.len(),
        (a + b + c + d).subrange(0, a.len() as int) == a,
        (a + b + c + d).subrange(a.len() as int, (a.len() + b.len()) as int) == b,
        (a + b + c + d).subrange((a.len() + b.len()) as int, (a.len() + b.len() + c.len()) as int)
            == c,
        (a + b + c + d).subrange(
            (a.len() + b.len() + c.len()) as int,
            (a.len() + b.len() + c.len() + d.len()) as int,
        ) == d,
{
    let s = a + b + c + d;
    let la = a.len() as int;
    let lb = b.len() as int;
    let lc = c.len() as int;
    let ld = d.len() as int;
    assert(s.subrange(0, la) =~= a);
    assert(s.subrange(la, la + lb) =~= b);
    assert(s.subrange(la + lb, la + lb + lc) =~= c);
    assert(s.subrange(la + lb + lc, la + lb + lc + ld) =~= d);
}

/// Two byte sequences one after the other hold each of them in its place.
proof fn lemma_two_parts(a: Seq<u8>, b: Seq<u8>)
    ensures
        (a + b).len() == a.len() + b.len(),
        (a + b).subrange(0, a.len() as int) == a,
        (a + b).subrange(a.len() as int, (a.len() + b.len()) as int) == b,
{
    let s = a + b;
    assert(s.subrange(0, a.len() as int) =~= a);
    assert(s.subrange(a.len() as int, a.len() as int + b.len() as int) =~= b);
}

impl Proof {
    /// The bytes of the proof. A proof whose elements are valid is read back
    /// from them.
    pub fn serialize_with_mode(&self, compressed: bool) -> (r: Vec<u8>)
        ensures
            r@ == proof_encoding(self@, compressed),
            proof_is_valid(self@) ==> proof_decoding(r@, compressed) == Some(self@),
    {
        let mut out = encode_g1(&self.a, compressed);
        let mut b = encode_g2(&self.b, compressed);
        let mut c = encode_g1(&self.c, compressed);
        let mut cm = encode_g1(&self.cm, compressed);
        proof {
            lemma_four_parts(out@, b@, c@, cm@);
        }
        out.append(&mut b);
        out.append(&mut c);
        out.append(&mut cm);
        out
    }

    /// The proof that the bytes stand for, or `SerializationError` where
    /// they stand for none.
    pub fn deserialize_with_mode(bytes: &[u8], compressed: bool) -> (r: Result<Proof, SynthesisError>)
        ensures
            r.is_ok() <==> proof_decoding(bytes@, compressed).is_some(),
            r matches Ok(p) ==> Some(p@) == proof_decoding(bytes@, compressed) && proof_is_valid(p@),
            r matches Err(e) ==> e == SynthesisError::SerializationError,
    {
        let l1: usize = if compressed {
            32
        } else {
            64
        };
        let l2: usize = 2 * l1;
        if bytes.len() != 3 * l1 + l2 {
            return Err(SynthesisError::SerializationError);
        }
        let a = decode_g1(slice_subrange(bytes, 0, l1), compressed);
        let b = decode_g2(slice_subrange(bytes, l1, l1 + l2), compressed);
        let c = decode_g1(slice_subrange(bytes, l1 + l2, 2 * l1 + l2), compressed);
        let cm = decode_g1(slice_subrange(bytes, 2 * l1 + l2, 3 * l1 + l2), compressed);
        match (a, b, c, cm) {
            (Some(a), Some(b), Some(c), Some(cm)) => Ok(Proof { a, b, c, cm }),
            _ => Err(SynthesisError::SerializationError),
        }
    }
}

impl VerifyingKey {
    /// The bytes of the key. A key whose elements are valid is read back
    /// from them.
    pub fn serialize_with_mode(&self, compressed: bool) -> (r: Vec<u8>)
        ensures
            r@ == vk_encoding(self@, compressed),
            r.len() == vk_header_len(compressed) + self.gamma_abc_g1.len() * g1_len(compressed),
            vk_is_valid(self@) ==> vk_decoding(r@, compressed) == Some(self@),
    {
        let mut out = encode_g1(&self.alpha_g1, compressed);
        let mut beta = encode_g2(&self.beta_g2, compressed);
        let mut gamma = encode_g2(&self.gamma_g2, compressed);
        let mut delta = encode_g2(&self.delta_g2, compressed);
        let ghost header = out@ + beta@ + gamma@ + delta@;
        let ghost run = g1_run_encoding(
            g1_views(self.gamma_abc_g1@),
            self.gamma_abc_g1.len() as nat,
            compressed,
        );
        proof {
            lemma_four_parts(out@, beta@, gamma@, delta@);
        }
        out.append(&mut beta);
        out.append(&mut gamma);
        out.append(&mut delta);
        encode_g1_run(&mut out, &self.gamma_abc_g1, compressed);
        proof {
            let l1 = g1_len(compressed) as int;
            let count = self.gamma_abc_g1.len() as int;
            lemma_two_parts(header, run);
            assert(out@ == header + run);
            assert(run.len() == count * l1);
            assert((count * l1) % l1 == 0 && (count * l1) / l1 == count) by (nonlinear_arith)
                requires
                    l1 > 0,
                    count >= 0,
            ;
            assert(out@.subrange(0, l1) =~= header.subrange(0, l1));
            assert(out@.subrange(l1, l1 + g2_len(compressed)) =~= header.subrange(
                l1,
                l1 + g2_len(compressed),
            ));
            assert(out@.subrange(l1 + g2_len(compressed), l1 + 2 * g2_len(compressed))
                =~= header.subrange(l1 + g2_len(compressed), l1 + 2 * g2_len(compressed)));
            assert(out@.subrange(l1 + 2 * g2_len(compressed), header.len() as int)
                =~= header.subrange(l1 + 2 * g2_len(compressed), header.len() as int));
            assert(out@.subrange(header.len() as int, out@.len() as int) == run);
        }
        out
    }

    /// The key that the bytes stand for, or `SerializationError` where they
    /// stand for none.
    pub fn deserialize_with_mode(bytes: &[u8], compressed: bool) -> (r: Result<
        VerifyingKey,
        SynthesisError,
    >)
        ensures
            r.is_ok() <==> vk_decoding(bytes@, compressed).is_some(),
            r matches Ok(vk) ==> Some(vk@) == vk_decoding(bytes@, compressed) && vk_is_valid(vk@),
            r matches Ok(vk) ==> vk_header_len(compressed) + vk.gamma_abc_g1.len() * g1_len(
                compressed,
            ) == bytes.len(),
            r matches Err(e) ==> e == SynthesisError::SerializationError,
    {
        let l1: usize = if compressed {
            32
        } else {
            64
        };
        let l2: usize = 2 * l1;
        let header: usize = l1 + 3 * l2;
        if bytes.len() < header || (bytes.len() - header) % l1 != 0 {
            return Err(SynthesisError::SerializationError);
        }
        let count = (bytes.len() - header) / l1;
        assert(header + count * l1 == bytes.len()) by (nonlinear_arith)
            requires
                (bytes.len() - header) % (l1 as int) == 0,
                count == (bytes.len() - header) / (l1 as int),
                l1 > 0,
                bytes.len() >= header,
        ;
        let alpha_g1 = decode_g1(slice_subrange(bytes, 0, l1), compressed);
        let beta_g2 = decode_g2(slice_subrange(bytes, l1, l1 + l2), compressed);
        let gamma_g2 = decode_g2(slice_subrange(bytes, l1 + l2, l1 + 2 * l2), compressed);
        let delta_g2 = decode_g2(slice_subrange(bytes, l1 + 2 * l2, header), compressed);
        let gamma_abc_g1 = decode_g1_run(bytes, header, count, compressed);
        match (alpha_g1, beta_g2, gamma_g2, delta_g2, gamma_abc_g1) {
            (Some(alpha_g1), Some(beta_g2), Some(gamma_g2), Some(delta_g2), Some(gamma_abc_g1)) => Ok(
                VerifyingKey { alpha_g1, beta_g2, gamma_g2, delta_g2, gamma_abc_g1 },
            ),
            _ => Err(SynthesisError::SerializationError),
        }
    }
}

impl PreparedVerifyingKey {
    /// The bytes of the key. A key whose elements are valid is read back
    /// from them.
    pub fn serialize_with_mode(&self, compressed: bool) -> (r: Vec<u8>)
        ensures
            r@ == pvk_encoding(self@, compressed),
            pvk_is_valid(self@) ==> pvk_decoding(r@, compressed) == Some(self@),
    {
        let mut out = self.vk.serialize_with_mode(compressed);
        let mut pairing = encode_gt(&self.alpha_g1_beta_g2);
        let mut gamma = encode_g2(&self.gamma_g2_neg_pc, compressed);
        let mut delta = encode_g2(&self.delta_g2_neg_pc, compressed);
        proof {
            lemma_four_parts(out@, pairing@, gamma@, delta@);
        }
        out.append(&mut pairing);
        out.append(&mut gamma);
        out.append(&mut delta);
        out
    }

    /// The key that the bytes stand for, or `SerializationError` where they
    /// stand for none.
    pub fn deserialize_with_mode(bytes: &[u8], compressed: bool) -> (r: Result<
        PreparedVerifyingKey,
        SynthesisError,
    >)
        ensures
            r.is_ok() <==> pvk_decoding(bytes@, compressed).is_some(),
            r matches Ok(pvk) ==> Some(pvk@) == pvk_decoding(bytes@, compressed) && pvk_is_valid(
                pvk@,
            ),
            r matches Err(e) ==> e == SynthesisError::SerializationError,
    {
        let l2: usize = if compressed {
            64
        } else {
            128
        };
        let tail: usize = 384 + 2 * l2;
        if bytes.len() < tail {
            return Err(SynthesisError::SerializationError);
        }
        let split = bytes.len() - tail;
        let vk = VerifyingKey::deserialize_with_mode(slice_subrange(bytes, 0, split), compressed);
        let pairing = decode_gt(slice_subrange(bytes, split, split + 384));
        let gamma = decode_g2(slice_subrange(bytes, split + 384, split + 384 + l2), compressed);
        let delta = decode_g2(slice_subrange(bytes, split + 384 + l2, bytes.len()), compressed);
        match (vk, pairing, gamma, delta) {
            (Ok(vk), Some(alpha_g1_beta_g2), Some(gamma_g2_neg_pc), Some(delta_g2_neg_pc)) => Ok(
                PreparedVerifyingKey { vk, alpha_g1_beta_g2, gamma_g2_neg_pc, delta_g2_neg_pc },
            ),
            _ => Err(SynthesisError::SerializationError),
        }
    }
}

/// How many bases each part of a proving key holds. Nothing in the bytes of
/// a key says so: the circuit's shape does.
#[derive(Clone, Copy, Debug, PartialEq, Eq)]
pub struct KeyLayout {
    /// The bases of `vk.gamma_abc_g1`: one for the constant, each public
    /// input and each committed witness.
    pub instance: usize,
    /// The bases of `a_query`, of `b_g1_query` and of `b_g2_query`: one for
    /// each column.
    pub columns: usize,
    /// The bases of `h_query`: one less than the evaluation domain has
    /// elements.
    pub quotient: usize,
    /// The bases of `l_query`: one for each private witness.
    pub private: usize,
}

/// Whether a proving key has the layout `layout`.
pub open spec fn has_layout(pk: ProvingKeySpec, layout: KeyLayout) -> bool {
    &&& pk.vk.gamma_abc_g1.len() == layout.instance
    &&& pk.a_query.len() == layout.columns
    &&& pk.b_g1_query.len() == layout.columns
    &&& pk.b_g2_query.len() == layout.columns
    &&& pk.h_query.len() == layout.quotient
    &&& pk.l_query.len() == layout.private
}

/// The four single elements of a proving key: `beta_g1`, `delta_g1`,
/// `eta_gamma_inv_g1`, `eta_delta_inv_g1`.
pub open spec fn pk_single_elements(pk: ProvingKeySpec) -> Seq<G1Spec> {
    seq![pk.beta_g1, pk.delta_g1, pk.eta_gamma_inv_g1, pk.eta_delta_inv_g1]
}

/// Whether every element of a proving key is valid.
pub open spec fn pk_is_valid(pk: ProvingKeySpec) -> bool {
    &&& vk_is_valid(pk.vk)
    &&& g1_all_valid(pk_single_elements(pk))
    &&& g1_all_valid(pk.a_query)
    &&& g1_all_valid(pk.b_g1_query)
    &&& g2_all_valid(pk.b_g2_query)
    &&& g1_all_valid(pk.h_query)
    &&& g1_all_valid(pk.l_query)
}

/// The layout of a proving key.
pub open spec fn layout_of(pk: ProvingKeySpec) -> KeyLayout {
    KeyLayout {
        instance: pk.vk.gamma_abc_g1.len() as usize,
        columns: pk.a_query.len() as usize,
        quotient: pk.h_query.len() as usize,
        private: pk.l_query.len() as usize,
    }
}

/// Seven byte sequences one after the other hold each of them in its place.
proof fn lemma_seven_parts(
    a: Seq<u8>,
    b: Seq<u8>,
    c: Seq<u8>,
    d: Seq<u8>,
    e: Seq<u8>,
    f: Seq<u8>,
    g: Seq<u8>,
)
    ensures
        ({
            let s = a + b + c + d + e + f + g;
            let o1 = a.len() as int;
            let o2 = o1 + b.len();
            let o3 = o2 + c.len();
            let o4 = o3 + d.len();
            let o5 = o4 + e.len();
            let o6 = o5 + f.len();
            let o7 = o6 + g.len();
            &&& s.len() == o7
            &&& s.subrange(0, o1) == a
            &&& s.subrange(o1, o2) == b
            &&& s.subrange(o2, o3) == c
            &&& s.subrange(o3, o4) == d
            &&& s.subrange(o4, o5) == e
            &&& s.subrange(o5, o6) == f
            &&& s.subrange(o6, o7) == g
        }),
{
    let s = a + b + c + d + e + f + g;
    let o1 = a.len() as int;
    let o2 = o1 + b.len();
    let o3 = o2 + c.len();
    let o4 = o3 + d.len();
    let o5 = o4 + e.len();
    let o6 = o5 + f.len();
    let o7 = o6 + g.len();
    assert(s.subrange(0, o1) =~= a);
    assert(s.subrange(o1, o2) =~= b);
    assert(s.subrange(o2, o3) =~= c);
    assert(s.subrange(o3, o4) =~= d);
    assert(s.subrange(o4, o5) =~= e);
    assert(s.subrange(o5, o6) =~= f);
    assert(s.subrange(o6, o7) =~= g);
}

/// Bytes that grew part by part are the bytes of the key.
proof fn lemma_pk_parts(
    pk: ProvingKeySpec,
    compressed: bool,
    vk_part: Seq<u8>,
    s1: Seq<u8>,
    s2: Seq<u8>,
    s3: Seq<u8>,
    s4: Seq<u8>,
    s5: Seq<u8>,
    s6: Seq<u8>,
)
    requires
        vk_part == vk_encoding(pk.vk, compressed),
        s1 == vk_part + g1_run_encoding(pk_single_elements(pk), 4, compressed),
        s2 == s1 + g1_run_encoding(pk.a_query, pk.a_query.len(), compressed),
        s3 == s2 + g1_run_encoding(pk.b_g1_query, pk.b_g1_query.len(), compressed),
        s4 == s3 + g2_run_encoding(pk.b_g2_query, pk.b_g2_query.len(), compressed),
        s5 == s4 + g1_run_encoding(pk.h_query, pk.h_query.len(), compressed),
        s6 == s5 + g1_run_encoding(pk.l_query, pk.l_query.len(), compressed),
    ensures
        s6 == pk_encoding(pk, compressed),
{
}

/// The bytes of a valid proving key decode to the key, where each part
/// decodes to itself.
#[verifier::rlimit(60)]
proof fn lemma_pk_round_trip(pk: ProvingKeySpec, compressed: bool, vk_part: Seq<u8>, bytes: Seq<u8>)
    requires
        pk.vk.gamma_abc_g1.len() <= usize::MAX,
        pk.a_query.len() <= usize::MAX,
        pk.h_query.len() <= usize::MAX,
        pk.l_query.len() <= usize::MAX,
        pk.b_g1_query.len() == pk.a_query.len(),
        pk.b_g2_query.len() == pk.a_query.len(),
        vk_part == vk_encoding(pk.vk, compressed),
        vk_part.len() == vk_header_len(compressed) + pk.vk.gamma_abc_g1.len() * g1_len(compressed),
        vk_decoding(vk_part, compressed) == Some(pk.vk),
        bytes == pk_encoding(pk, compressed),
        run_round_trips(pk_single_elements(pk), compressed),
        run_round_trips(pk.a_query, compressed),
        run_round_trips(pk.b_g1_query, compressed),
        g2_run_round_trips(pk.b_g2_query, compressed),
        run_round_trips(pk.h_query, compressed),
        run_round_trips(pk.l_query, compressed),
    ensures
        pk_decoding(bytes, layout_of(pk), compressed) == Some(pk),
{
    let single_part = g1_run_encoding(pk_single_elements(pk), 4, compressed);
    let a_part = g1_run_encoding(pk.a_query, pk.a_query.len(), compressed);
    let b_g1_part = g1_run_encoding(pk.b_g1_query, pk.b_g1_query.len(), compressed);
    let b_g2_part = g2_run_encoding(pk.b_g2_query, pk.b_g2_query.len(), compressed);
    let h_part = g1_run_encoding(pk.h_query, pk.h_query.len(), compressed);
    let l_part = g1_run_encoding(pk.l_query, pk.l_query.len(), compressed);
    lemma_seven_parts(vk_part, single_part, a_part, b_g1_part, b_g2_part, h_part, l_part);
    let layout = layout_of(pk);
    let at = pk_offsets(layout, compressed);
    assert(at.0 == vk_part.len());
    assert(at.1 == at.0 + single_part.len());
    assert(at.2 == at.1 + a_part.len());
    assert(at.3 == at.2 + b_g1_part.len());
    assert(at.4 == at.3 + b_g2_part.len());
    assert(at.5 == at.4 + h_part.len());
    assert(at.6 == at.5 + l_part.len());
    assert(bytes.subrange(0, at.0) == vk_part);
    assert(bytes.subrange(at.0, at.1) == single_part);
    assert(bytes.subrange(at.1, at.2) == a_part);
    assert(bytes.subrange(at.2, at.3) == b_g1_part);
    assert(bytes.subrange(at.3, at.4) == b_g2_part);
    assert(bytes.subrange(at.4, at.5) == h_part);
    assert(bytes.subrange(at.5, at.6) == l_part);
    let fixed = pk_single_elements(pk);
    assert(fixed[0] == pk.beta_g1 && fixed[1] == pk.delta_g1 && fixed[2] == pk.eta_gamma_inv_g1
        && fixed[3] == pk.eta_delta_inv_g1);
    let decoded = pk_decoding(bytes, layout, compressed);
    assert(decoded == Some(
        ProvingKeySpec {
            vk: pk.vk,
            beta_g1: fixed[0],
            delta_g1: fixed[1],
            a_query: pk.a_query,
            b_g1_query: pk.b_g1_query,
            b_g2_query: pk.b_g2_query,
            h_query: pk.h_query,
            l_query: pk.l_query,
            eta_gamma_inv_g1: fixed[2],
            eta_delta_inv_g1: fixed[3],
        },
    ));
}

/// Whether the bytes of a run of points of `G1` have the length of the run
/// and decode to the run.
pub open spec fn run_round_trips(points: Seq<G1Spec>, compressed: bool) -> bool {
    &&& g1_run_encoding(points, points.len(), compressed).len() == points.len() * g1_len(
        compressed,
    )
    &&& g1_run_decoding(
        g1_run_encoding(points, points.len(), compressed),
        points.len(),
        compressed,
    ) == Some(points)
}

/// Whether the bytes of a run of points of `G2` have the length of the run
/// and decode to the run.
pub open spec fn g2_run_round_trips(points: Seq<G2Spec>, compressed: bool) -> bool {
    &&& g2_run_encoding(points, points.len(), compressed).len() == points.len() * g2_len(
        compressed,
    )
    &&& g2_run_decoding(
        g2_run_encoding(points, points.len(), compressed),
        points.len(),
        compressed,
    ) == Some(points)
}

/// The bytes of a proving key: the verifying key, then `beta_g1`,
/// `delta_g1`, `eta_gamma_inv_g1`, `eta_delta_inv_g1`, then the bases of
/// `a_query`, `b_g1_query`, `b_g2_query`, `h_query` and `l_query`.
pub open spec fn pk_encoding(pk: ProvingKeySpec, compressed: bool) -> Seq<u8> {
    vk_encoding(pk.vk, compressed) + g1_run_encoding(pk_single_elements(pk), 4, compressed)
        + g1_run_encoding(pk.a_query, pk.a_query.len(), compressed) + g1_run_encoding(
        pk.b_g1_query,
        pk.b_g1_query.len(),
        compressed,
    ) + g2_run_encoding(pk.b_g2_query, pk.b_g2_query.len(), compressed) + g1_run_encoding(
        pk.h_query,
        pk.h_query.len(),
        compressed,
    ) + g1_run_encoding(pk.l_query, pk.l_query.len(), compressed)
}

/// Where the parts of a proving key with the layout `layout` start: the
/// four single elements of the proving key, `a_query`, `b_g1_query`,
/// `b_g2_query`, `h_query`, `l_query`, and the end.
pub open spec fn pk_offsets(layout: KeyLayout, compressed: bool) -> (int, int, int, int, int, int, int) {
    let l1 = g1_len(compressed) as int;
    let l2 = g2_len(compressed) as int;
    let at_fixed = vk_header_len(compressed) + layout.instance * l1;
    let at_a = at_fixed + 4 * l1;
    let at_b1 = at_a + layout.columns * l1;
    let at_b2 = at_b1 + layout.columns * l1;
    let at_h = at_b2 + layout.columns * l2;
    let at_l = at_h + layout.quotient * l1;
    (at_fixed, at_a, at_b1, at_b2, at_h, at_l, at_l + layout.private * l1)
}

/// The proving key with the layout `layout` that bytes stand for, if they
/// stand for one.
pub open spec fn pk_decoding(bytes: Seq<u8>, layout: KeyLayout, compressed: bool) -> Option<
    ProvingKeySpec,
> {
    let at = pk_offsets(layout, compressed);
    if bytes.len() != at.6 {
        None
    } else {
        match (
            vk_decoding(bytes.subrange(0, at.0), compressed),
            g1_run_decoding(bytes.subrange(at.0, at.1), 4, compressed),
            g1_run_decoding(bytes.subrange(at.1, at.2), layout.columns as nat, compressed),
            g1_run_decoding(bytes.subrange(at.2, at.3), layout.columns as nat, compressed),
            g2_run_decoding(bytes.subrange(at.3, at.4), layout.columns as nat, compressed),
            g1_run_decoding(bytes.subrange(at.4, at.5), layout.quotient as nat, compressed),
            g1_run_decoding(bytes.subrange(at.5, at.6), layout.private as nat, compressed),
        ) {
            (Some(vk), Some(fixed), Some(a_query), Some(b_g1_query), Some(b_g2_query), Some(h_query), Some(l_query)) => Some(
                ProvingKeySpec {
                    vk,
                    beta_g1: fixed[0],
                    delta_g1: fixed[1],
                    a_query,
                    b_g1_query,
                    b_g2_query,
                    h_query,
                    l_query,
                    eta_gamma_inv_g1: fixed[2],
                    eta_delta_inv_g1: fixed[3],
                },
            ),
            _ => None,
        }
    }
}

/// Where the parts of a proving key start in `len` bytes, if `len` is the
/// length that goes with the layout.
fn offsets_in(layout: &KeyLayout, compressed: bool, len: usize) -> (r: Option<
    (usize, usize, usize, usize, usize, usize),
>)
    ensures
        r.is_some() <==> len == pk_offsets(*layout, compressed).6,
        r matches Some(at) ==> {
            &&& at.0 == pk_offsets(*layout, compressed).0
            &&& at.1 == pk_offsets(*layout, compressed).1
            &&& at.2 == pk_offsets(*layout, compressed).2
            &&& at.3 == pk_offsets(*layout, compressed).3
            &&& at.4 == pk_offsets(*layout, compressed).4
            &&& at.5 == pk_offsets(*layout, compressed).5
            &&& at.0 <= at.1 <= at.2 <= at.3 <= at.4 <= at.5 <= len
            &&& at.0 == vk_header_len(compressed) + layout.instance * g1_len(compressed)
            &&& at.1 == at.0 + 4 * g1_len(compressed)
            &&& at.2 == at.1 + layout.columns * g1_len(compressed)
            &&& at.3 == at.2 + layout.columns * g1_len(compressed)
            &&& at.4 == at.3 + layout.columns * g2_len(compressed)
            &&& at.5 == at.4 + layout.quotient * g1_len(compressed)
            &&& len == at.5 + layout.private * g1_len(compressed)
        },
{
    if compressed {
        let at_fixed: u128 = 224 + layout.instance as u128 * 32;
        let at_a: u128 = at_fixed + 128;
        let at_b1: u128 = at_a + layout.columns as u128 * 32;
        let at_b2: u128 = at_b1 + layout.columns as u128 * 32;
        let at_h: u128 = at_b2 + layout.columns as u128 * 64;
        let at_l: u128 = at_h + layout.quotient as u128 * 32;
        let end: u128 = at_l + layout.private as u128 * 32;
        if end != len as u128 {
            return None;
        }
        Some(
            (
                at_fixed as usize,
                at_a as usize,
                at_b1 as usize,
                at_b2 as usize,
                at_h as usize,
                at_l as usize,
            ),
        )
    } else {
        let at_fixed: u128 = 448 + layout.instance as u128 * 64;
        let at_a: u128 = at_fixed + 256;
        let at_b1: u128 = at_a + layout.columns as u128 * 64;
        let at_b2: u128 = at_b1 + layout.columns as u128 * 64;
        let at_h: u128 = at_b2 + layout.columns as u128 * 128;
        let at_l: u128 = at_h + layout.quotient as u128 * 64;
        let end: u128 = at_l + layout.private as u128 * 64;
        if end != len as u128 {
            return None;
        }
        Some(
            (
                at_fixed as usize,
                at_a as usize,
                at_b1 as usize,
                at_b2 as usize,
                at_h as usize,
                at_l as usize,
            ),
        )
    }
}

/// The layout of the proving keys of a circuit with the matrices `m`, if
/// the circuit has keys: one that is too large for an evaluation domain has
/// none.
pub open spec fn layout_for(m: ConstraintMatrices) -> Option<KeyLayout> {
    if m.a.len() + m.shape().num_instance() > 0x1000_0000 {
        None
    } else {
        Some(
            KeyLayout {
                instance: m.shape().num_instance() as usize,
                columns: m.shape().num_variables() as usize,
                quotient: (domain_size_of(m) - 1) as usize,
                private: m.num_private,
            },
        )
    }
}

impl KeyLayout {
    /// The layout of the proving keys of a circuit, from its matrices.
    pub fn of(m: &ConstraintMatrices) -> (r: Option<KeyLayout>)
        requires
            m.well_formed(),
        ensures
            r == layout_for(*m),
    {
        let instance = m.num_instance();
        let columns = m.num_variables();
        let rows = m.a.len();
        if rows > 0x1000_0000 || instance > 0x1000_0000 {
            return None;
        }
        let size = evaluation_domain_size(rows + instance)?;
        proof {
            let k = choose|k: nat| k <= 28 && size == vstd::arithmetic::power2::pow2(k);
            vstd::arithmetic::power2::lemma_pow2_pos(k);
        }
        Some(KeyLayout { instance, columns, quotient: size - 1, private: m.num_private })
    }
}

/// A key that setup gives for a circuit has the layout of that circuit.
pub proof fn lemma_setup_key_has_layout(
    pk: ProvingKey,
    committed: nat,
    m: ConstraintMatrices,
    t: Trapdoor,
)
    requires
        m.well_formed(),
        is_setup_outcome(Ok(pk), committed, m, t),
    ensures
        layout_for(m) matches Some(layout) && has_layout(pk@, layout),
{
    lemma_setup_key_lengths(pk@, committed, m, t, pk);
    let n = (m.a.len() + m.shape().num_instance()) as nat;
    vstd::arithmetic::power2::lemma2_to64();
    lemma_domain_exists(n, 28);
    assert(is_domain_size_for(n, domain_size_of(m)));
    lemma_lengths_are_layout(pk@, m);
}

/// The lengths of the parts of a key that setup gives, by the circuit.
proof fn lemma_setup_key_lengths(
    key: ProvingKeySpec,
    committed: nat,
    m: ConstraintMatrices,
    t: Trapdoor,
    pk: ProvingKey,
)
    requires
        key == pk@,
        is_setup_outcome(Ok(pk), committed, m, t),
    ensures
        m.a.len() + m.shape().num_instance() <= 0x1000_0000,
        domain_size_of(m) <= usize::MAX,
        key_has_lengths(key, m),
{
    reveal(is_setup_outcome);
    let q = choose|q: QapEvaluation|
        is_qap_evaluation(q, m, t.tau@) && is_key_of(pk@, q, m.shape().num_instance(), t);
    lemma_evaluation_sizes(q, m, t.tau@);
    lemma_key_lengths(pk@, q, m.shape().num_instance(), t);
    assert(setup_refusal(committed, m, t) is None);
}

/// Whether the parts of a key have the lengths that the circuit gives them.
spec fn key_has_lengths(key: ProvingKeySpec, m: ConstraintMatrices) -> bool {
    &&& key.vk.gamma_abc_g1.len() == m.shape().num_instance()
    &&& key.a_query.len() == m.shape().num_variables()
    &&& key.b_g1_query.len() == m.shape().num_variables()
    &&& key.b_g2_query.len() == m.shape().num_variables()
    &&& key.h_query.len() == (domain_size_of(m) - 1) as nat
    &&& key.l_query.len() == (m.shape().num_variables() - m.shape().num_instance()) as nat
}

/// A key with the lengths that a circuit gives has the circuit's layout.
proof fn lemma_lengths_are_layout(key: ProvingKeySpec, m: ConstraintMatrices)
    requires
        key_has_lengths(key, m),
        m.shape().num_variables() <= usize::MAX,
        m.a.len() + m.shape().num_instance() <= 0x1000_0000,
        1 <= domain_size_of(m) <= usize::MAX,
    ensures
        layout_for(m) matches Some(layout) && has_layout(key, layout),
{
}

/// Up to `2^k` values have a smallest domain, for `k` up to 28.
proof fn lemma_domain_exists(n: nat, k: nat)
    requires
        n <= vstd::arithmetic::power2::pow2(k),
        k <= 28,
    ensures
        exists|size: nat| is_domain_size_for(n, size),
    decreases k,
{
    vstd::arithmetic::power2::lemma2_to64();
    if k == 0 {
        assert(is_domain_size(1)) by {
            assert(0 <= 28 && 1 == vstd::arithmetic::power2::pow2(0));
        }
        assert(is_domain_size_for(n, 1));
    } else if n <= vstd::arithmetic::power2::pow2((k - 1) as nat) {
        lemma_domain_exists(n, (k - 1) as nat);
    } else {
        let size = vstd::arithmetic::power2::pow2(k);
        vstd::arithmetic::power2::lemma_pow2_unfold(k);
        assert(is_domain_size(size));
        assert(is_domain_size_for(n, size));
    }
}

/// The QAP of a circuit has a value for each column, over the circuit's
/// domain.
proof fn lemma_evaluation_sizes(q: QapEvaluation, m: ConstraintMatrices, tau: nat)
    requires
        is_qap_evaluation(q, m, tau),
    ensures
        q.a.len() == m.shape().num_variables(),
        q.b.len() == m.shape().num_variables(),
        q.domain_size == domain_size_of(m),
{
    reveal(is_qap_evaluation);
}

/// A key has a base for each scalar that it was made from.
proof fn lemma_key_lengths(pk: ProvingKeySpec, q: QapEvaluation, instance: nat, t: Trapdoor)
    requires
        is_key_of(pk, q, instance, t),
    ensures
        pk.vk.gamma_abc_g1.len() == instance,
        pk.a_query.len() == q.a.len(),
        pk.b_g1_query.len() == q.b.len(),
        pk.b_g2_query.len() == q.b.len(),
        pk.h_query.len() == (q.domain_size - 1) as nat,
        pk.l_query.len() == (q.a.len() - instance) as nat,
{
    reveal(is_key_of);
}

impl ProvingKey {
    /// How many bases each part of the key holds.
    pub fn layout(&self) -> (r: KeyLayout)
        ensures
            r.instance == self.vk.gamma_abc_g1.len(),
            r.columns == self.a_query.len(),
            r.quotient == self.h_query.len(),
            r.private == self.l_query.len(),
    {
        KeyLayout {
            instance: self.vk.gamma_abc_g1.len(),
            columns: self.a_query.len(),
            quotient: self.h_query.len(),
            private: self.l_query.len(),
        }
    }

    /// The bytes of the key. A key whose elements are valid and whose three
    /// queries over the columns have one length is read back from them, given
    /// its layout.
    pub fn serialize_with_mode(&self, compressed: bool) -> (r: Vec<u8>)
        ensures
            r@ == pk_encoding(self@, compressed),
            pk_is_valid(self@) && self.b_g1_query.len() == self.a_query.len()
                && self.b_g2_query.len() == self.a_query.len() ==> pk_decoding(
                r@,
                layout_of(self@),
                compressed,
            ) == Some(self@),
    {
        let mut out = self.vk.serialize_with_mode(compressed);
        let single: Vec<G1Point> = vec![
            self.beta_g1,
            self.delta_g1,
            self.eta_gamma_inv_g1,
            self.eta_delta_inv_g1,
        ];
        assert(g1_views(single@) =~= pk_single_elements(self@));
        let ghost vk_part = out@;
        encode_g1_run(&mut out, &single, compressed);
        let ghost s1 = out@;
        encode_g1_run(&mut out, &self.a_query, compressed);
        let ghost s2 = out@;
        encode_g1_run(&mut out, &self.b_g1_query, compressed);
        let ghost s3 = out@;
        encode_g2_run(&mut out, &self.b_g2_query, compressed);
        let ghost s4 = out@;
        encode_g1_run(&mut out, &self.h_query, compressed);
        let ghost s5 = out@;
        encode_g1_run(&mut out, &self.l_query, compressed);
        proof {
            lemma_pk_parts(self@, compressed, vk_part, s1, s2, s3, s4, s5, out@);
            if pk_is_valid(self@) && self.b_g1_query.len() == self.a_query.len()
                && self.b_g2_query.len() == self.a_query.len() {
                lemma_pk_round_trip(self@, compressed, vk_part, out@);
            }
        }
        out
    }

    /// The key with the layout `layout` that the bytes stand for, or
    /// `SerializationError` where they stand for none.
    pub fn deserialize_with_mode(bytes: &[u8], layout: &KeyLayout, compressed: bool) -> (r: Result<
        ProvingKey,
        SynthesisError,
    >)
        ensures
            r.is_ok() <==> pk_decoding(bytes@, *layout, compressed).is_some(),
            r matches Ok(pk) ==> Some(pk@) == pk_decoding(bytes@, *layout, compressed) && has_layout(
                pk@,
                *layout,
            ),
            r matches Err(e) ==> e == SynthesisError::SerializationError,
    {
        let at = match offsets_in(layout, compressed, bytes.len()) {
            None => {
                return Err(SynthesisError::SerializationError);
            },
            Some(at) => at,
        };
        let vk = VerifyingKey::deserialize_with_mode(slice_subrange(bytes, 0, at.0), compressed);
        let fixed = decode_g1_run(bytes, at.0, 4, compressed);
        let a_query = decode_g1_run(bytes, at.1, layout.columns, compressed);
        let b_g1_query = decode_g1_run(bytes, at.2, layout.columns, compressed);
        let b_g2_query = decode_g2_run(bytes, at.3, layout.columns, compressed);
        let h_query = decode_g1_run(bytes, at.4, layout.quotient, compressed);
        let l_query = decode_g1_run(bytes, at.5, layout.private, compressed);
        match (vk, fixed, a_query, b_g1_query, b_g2_query, h_query, l_query) {
            (Ok(vk), Some(fixed), Some(a_query), Some(b_g1_query), Some(b_g2_query), Some(h_query), Some(l_query)) => {
                assert(vk.gamma_abc_g1.len() == layout.instance) by (nonlinear_arith)
                    requires
                        vk_header_len(compressed) + vk.gamma_abc_g1.len() * g1_len(compressed)
                            == at.0,
                        at.0 == vk_header_len(compressed) + layout.instance * g1_len(compressed),
                        g1_len(compressed) > 0,
                ;
                Ok(
                    ProvingKey {
                        vk,
                        beta_g1: fixed[0],
                        delta_g1: fixed[1],
                        a_query,
                        b_g1_query,
                        b_g2_query,
                        h_query,
                        l_query,
                        eta_gamma_inv_g1: fixed[2],
                        eta_delta_inv_g1: fixed[3],
                    },
                )
            },
            _ => Err(SynthesisError::SerializationError),
        }
    }
}

/// The proving key with the layout `layout` that the bytes of a file stand
/// for, uncompressed.
pub fn read_pk(bytes: &[u8], layout: &KeyLayout) -> (r: Result<ProvingKey, SynthesisError>)
    ensures
        r.is_ok() <==> pk_decoding(bytes@, *layout, COMPRESS_DEFAULT).is_some(),
        r matches Ok(pk) ==> Some(pk@) == pk_decoding(bytes@, *layout, COMPRESS_DEFAULT)
            && has_layout(pk@, *layout),
        r matches Err(e) ==> e == SynthesisError::SerializationError,
{
    ProvingKey::deserialize_with_mode(bytes, layout, COMPRESS_DEFAULT)
}

/// The bytes to write to a file for a proving key, uncompressed.
pub fn write_pk(pk: &ProvingKey) -> (r: Vec<u8>)
    ensures
        r@ == pk_encoding(pk@, COMPRESS_DEFAULT),
        pk_is_valid(pk@) && pk.b_g1_query.len() == pk.a_query.len() && pk.b_g2_query.len()
            == pk.a_query.len() ==> pk_decoding(r@, layout_of(pk@), COMPRESS_DEFAULT) == Some(
            pk@,
        ),
{
    pk.serialize_with_mode(COMPRESS_DEFAULT)
}

/// The verifying key that the bytes of a file stand for, uncompressed.
pub fn read_vk(bytes: &[u8]) -> (r: Result<VerifyingKey, SynthesisError>)
    ensures
        r.is_ok() <==> vk_decoding(bytes@, COMPRESS_DEFAULT).is_some(),
        r matches Ok(vk) ==> Some(vk@) == vk_decoding(bytes@, COMPRESS_DEFAULT) && vk_is_valid(vk@),
        r matches Err(e) ==> e == SynthesisError::SerializationError,
{
    VerifyingKey::deserialize_with_mode(bytes, COMPRESS_DEFAULT)
}

/// The prepared verifying key that the bytes of a file stand for,
/// uncompressed.
pub fn read_processed_vk(bytes: &[u8]) -> (r: Result<PreparedVerifyingKey, SynthesisError>)
    ensures
        r.is_ok() <==> pvk_decoding(bytes@, COMPRESS_DEFAULT).is_some(),
        r matches Ok(pvk) ==> Some(pvk@) == pvk_decoding(bytes@, COMPRESS_DEFAULT) && pvk_is_valid(
            pvk@,
        ),
        r matches Err(e) ==> e == SynthesisError::SerializationError,
{
    PreparedVerifyingKey::deserialize_with_mode(bytes, COMPRESS_DEFAULT)
}

/// The bytes to write to a file for a verifying key, uncompressed.
pub fn write_vk(vk: &VerifyingKey) -> (r: Vec<u8>)
    ensures
        r@ == vk_encoding(vk@, COMPRESS_DEFAULT),
        vk_is_valid(vk@) ==> vk_decoding(r@, COMPRESS_DEFAULT) == Some(vk@),
{
    vk.serialize_with_mode(COMPRESS_DEFAULT)
}

/// The bytes to write to a file for a prepared verifying key, uncompressed.
pub fn write_processed_vk(pvk: &PreparedVerifyingKey) -> (r: Vec<u8>)
    ensures
        r@ == pvk_encoding(pvk@, COMPRESS_DEFAULT),
        pvk_is_valid(pvk@) ==> pvk_decoding(r@, COMPRESS_DEFAULT) == Some(pvk@),
{
    pvk.serialize_with_mode(COMPRESS_DEFAULT)
}

/// A prepared verifying key and a proof that are read back from the bytes
/// they were written to are judged as before, whatever the inputs are.
pub proof fn lemma_read_back_same_verdict(
    committed: nat,
    pvk: PreparedVerifyingKeySpec,
    proof: ProofSpec,
    pvk_read: PreparedVerifyingKeySpec,
    proof_read: ProofSpec,
    inputs: Seq<nat>,
    compressed: bool,
)
    requires
        pvk_decoding(pvk_encoding(pvk, compressed), compressed) == Some(pvk),
        proof_decoding(proof_encoding(proof, compressed), compressed) == Some(proof),
        pvk_decoding(pvk_encoding(pvk, compressed), compressed) == Some(pvk_read),
        proof_decoding(proof_encoding(proof, compressed), compressed) == Some(proof_read),
    ensures
        verification(committed, pvk_read, proof_read, inputs) == verification(
            committed,
            pvk,
            proof,
            inputs,
        ),
{
}

/// A verifying key that is read back from the bytes it was written to
/// prepares to the same key, so that it judges every proof as before.
pub proof fn lemma_key_read_back_same_verdict(
    committed: nat,
    vk: VerifyingKeySpec,
    vk_read: VerifyingKeySpec,
    proof: ProofSpec,
    inputs: Seq<nat>,
    compressed: bool,
)
    requires
        vk_decoding(vk_encoding(vk, compressed), compressed) == Some(vk),
        vk_decoding(vk_encoding(vk, compressed), compressed) == Some(vk_read),
    ensures
        prepared(vk_read) == prepared(vk),
        verification(committed, prepared(vk_read), proof, inputs) == verification(
            committed,
            prepared(vk),
            proof,
            inputs,
        ),
{
}

/// A proving key that is read back from the bytes it was written to gives,
/// for the same circuit, assignment and blinding, the same proof or the
/// same error.
pub proof fn lemma_key_read_back_same_proof(
    pk: ProvingKeySpec,
    pk_read: ProvingKeySpec,
    compressed: bool,
    committed: nat,
    m: ConstraintMatrices,
    z: Seq<Fr>,
    r: nat,
    s: nat,
    v: nat,
)
    requires
        pk_decoding(pk_encoding(pk, compressed), layout_of(pk), compressed) == Some(pk),
        pk_decoding(pk_encoding(pk, compressed), layout_of(pk), compressed) == Some(pk_read),
    ensures
        proving_outcome(pk_read, committed, m, z, r, s, v) == proving_outcome(
            pk,
            committed,
            m,
            z,
            r,
            s,
            v,
        ),
{
}

} // verus!

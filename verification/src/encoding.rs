//! Group elements as bytes.
//!
//! The encodings are `ark-serialize`'s: a point of `G1` takes 32 bytes
//! compressed and 64 uncompressed, a point of `G2` twice as many, an element
//! of the target field 384. Decoding checks that a point lies on the curve
//! and in the group of prime order.
use crate::curve::{g1_views, g2_views, Fq2, G1Point, G1Spec, G2Point, G2Spec, Gt};
use crate::field::Fq;
use ark_bn254::{Fq as ArkFq, Fq12 as ArkFq12, Fq2 as ArkFq2, G1Affine, G2Affine};
use ark_ff::{BigInt, Field, PrimeField};
use ark_serialize::{CanonicalDeserialize, CanonicalSerialize, Compress, Valid, Validate};
use num_bigint::BigUint;
use vstd::prelude::*;
use vstd::slice::slice_subrange;

verus! {

/// The bytes of a point of `G1`.
pub uninterp spec fn g1_encoding(p: G1Spec, compressed: bool) -> Seq<u8>;

/// The point of `G1` that bytes stand for, if they stand for one.
pub uninterp spec fn g1_decoding(bytes: Seq<u8>, compressed: bool) -> Option<G1Spec>;

/// The bytes of a point of `G2`.
pub uninterp spec fn g2_encoding(p: G2Spec, compressed: bool) -> Seq<u8>;

/// The point of `G2` that bytes stand for, if they stand for one.
pub uninterp spec fn g2_decoding(bytes: Seq<u8>, compressed: bool) -> Option<G2Spec>;

/// The bytes of an element of the target field.
pub uninterp spec fn gt_encoding(t: Seq<nat>) -> Seq<u8>;

/// The element of the target field that bytes stand for, if they stand for one.
pub uninterp spec fn gt_decoding(bytes: Seq<u8>) -> Option<Seq<nat>>;

/// The number of bytes of a point of `G1`.
pub open spec fn g1_len(compressed: bool) -> nat {
    if compressed {
        32
    } else {
        64
    }
}

/// The number of bytes of a point of `G2`.
pub open spec fn g2_len(compressed: bool) -> nat {
    if compressed {
        64
    } else {
        128
    }
}

/// The number of bytes of an element of the target field.
pub open spec fn gt_len() -> nat {
    384
}

/// A point of `G1` is valid when some bytes decode to it: it then lies on
/// the curve, and its coordinates are least residues.
pub open spec fn g1_is_valid(p: G1Spec) -> bool {
    exists|bytes: Seq<u8>, compressed: bool| g1_decoding(bytes, compressed) == Some(p)
}

/// A point of `G2` is valid when some bytes decode to it: it then lies on
/// the curve and in the group of prime order.
pub open spec fn g2_is_valid(p: G2Spec) -> bool {
    exists|bytes: Seq<u8>, compressed: bool| g2_decoding(bytes, compressed) == Some(p)
}

/// An element of the target field is valid when some bytes decode to it.
pub open spec fn gt_is_valid(t: Seq<nat>) -> bool {
    exists|bytes: Seq<u8>| gt_decoding(bytes) == Some(t)
}

/// Whether every point of a sequence is valid.
pub open spec fn g1_all_valid(points: Seq<G1Spec>) -> bool {
    forall|i: int| 0 <= i < points.len() ==> g1_is_valid(#[trigger] points[i])
}

/// Whether every point of a sequence is valid.
pub open spec fn g2_all_valid(points: Seq<G2Spec>) -> bool {
    forall|i: int| 0 <= i < points.len() ==> g2_is_valid(#[trigger] points[i])
}

/// The bytes of the first `n` points of a sequence, one after the other.
pub open spec fn g1_run_encoding(points: Seq<G1Spec>, n: nat, compressed: bool) -> Seq<u8>
    decreases n,
{
    if n == 0 {
        Seq::empty()
    } else {
        g1_run_encoding(points, (n - 1) as nat, compressed) + g1_encoding(points[n - 1], compressed)
    }
}

/// The `count` points of `G1` that the first bytes of `bytes` stand for, if
/// each chunk stands for one.
pub open spec fn g1_run_decoding(bytes: Seq<u8>, count: nat, compressed: bool) -> Option<Seq<G1Spec>>
    decreases count,
{
    if count == 0 {
        Some(Seq::empty())
    } else {
        let chunk = bytes.subrange((count - 1) * g1_len(compressed), (count * g1_len(compressed)) as int);
        match (g1_run_decoding(bytes, (count - 1) as nat, compressed), g1_decoding(chunk, compressed)) {
            (Some(before), Some(p)) => Some(before.push(p)),
            _ => None,
        }
    }
}

/// The bytes of the first `n` points of a sequence, one after the other.
pub open spec fn g2_run_encoding(points: Seq<G2Spec>, n: nat, compressed: bool) -> Seq<u8>
    decreases n,
{
    if n == 0 {
        Seq::empty()
    } else {
        g2_run_encoding(points, (n - 1) as nat, compressed) + g2_encoding(points[n - 1], compressed)
    }
}

/// The `count` points of `G2` that the first bytes of `bytes` stand for, if
/// each chunk stands for one.
pub open spec fn g2_run_decoding(bytes: Seq<u8>, count: nat, compressed: bool) -> Option<Seq<G2Spec>>
    decreases count,
{
    if count == 0 {
        Some(Seq::empty())
    } else {
        let chunk = bytes.subrange((count - 1) * g2_len(compressed), (count * g2_len(compressed)) as int);
        match (g2_run_decoding(bytes, (count - 1) as nat, compressed), g2_decoding(chunk, compressed)) {
            (Some(before), Some(p)) => Some(before.push(p)),
            _ => None,
        }
    }
}

/// Decoding a run looks at the bytes of the run only.
pub proof fn lemma_g1_run_decoding_prefix(a: Seq<u8>, b: Seq<u8>, count: nat, compressed: bool)
    requires
        count * g1_len(compressed) <= a.len(),
        count * g1_len(compressed) <= b.len(),
        a.subrange(0, (count * g1_len(compressed)) as int) == b.subrange(
            0,
            (count * g1_len(compressed)) as int,
        ),
    ensures
        g1_run_decoding(a, count, compressed) == g1_run_decoding(b, count, compressed),
    decreases count,
{
    if count > 0 {
        let len = g1_len(compressed) as int;
        let end = count * len;
        let start = (count - 1) * len;
        assert(start + len == end) by (nonlinear_arith)
            requires
                start == (count - 1) * len,
                end == count * len,
        ;
        assert(a.subrange(start, end) =~= a.subrange(0, end).subrange(start, end));
        assert(b.subrange(start, end) =~= b.subrange(0, end).subrange(start, end));
        assert(a.subrange(0, start) =~= a.subrange(0, end).subrange(0, start));
        assert(b.subrange(0, start) =~= b.subrange(0, end).subrange(0, start));
        lemma_g1_run_decoding_prefix(a, b, (count - 1) as nat, compressed);
    }
}

/// Decoding a run looks at the bytes of the run only.
pub proof fn lemma_g2_run_decoding_prefix(a: Seq<u8>, b: Seq<u8>, count: nat, compressed: bool)
    requires
        count * g2_len(compressed) <= a.len(),
        count * g2_len(compressed) <= b.len(),
        a.subrange(0, (count * g2_len(compressed)) as int) == b.subrange(
            0,
            (count * g2_len(compressed)) as int,
        ),
    ensures
        g2_run_decoding(a, count, compressed) == g2_run_decoding(b, count, compressed),
    decreases count,
{
    if count > 0 {
        let len = g2_len(compressed) as int;
        let end = count * len;
        let start = (count - 1) * len;
        assert(start + len == end) by (nonlinear_arith)
            requires
                start == (count - 1) * len,
                end == count * len,
        ;
        assert(a.subrange(start, end) =~= a.subrange(0, end).subrange(start, end));
        assert(b.subrange(start, end) =~= b.subrange(0, end).subrange(start, end));
        assert(a.subrange(0, start) =~= a.subrange(0, end).subrange(0, start));
        assert(b.subrange(0, start) =~= b.subrange(0, end).subrange(0, start));
        lemma_g2_run_decoding_prefix(a, b, (count - 1) as nat, compressed);
    }
}

/// The view of a point that may be there.
pub open spec fn g1_option_view(p: Option<G1Point>) -> Option<G1Spec> {
    match p {
        Some(p) => Some(p@),
        None => None,
    }
}

/// The view of a point that may be there.
pub open spec fn g2_option_view(p: Option<G2Point>) -> Option<G2Spec> {
    match p {
        Some(p) => Some(p@),
        None => None,
    }
}

/// The view of an element of the target field that may be there.
pub open spec fn gt_option_view(t: Option<Gt>) -> Option<Seq<nat>> {
    match t {
        Some(t) => Some(t@),
        None => None,
    }
}

/// The views of points that may be there.
pub open spec fn g1_run_option_view(p: Option<Vec<G1Point>>) -> Option<Seq<G1Spec>> {
    match p {
        Some(p) => Some(g1_views(p@)),
        None => None,
    }
}

/// The views of points that may be there.
pub open spec fn g2_run_option_view(p: Option<Vec<G2Point>>) -> Option<Seq<G2Spec>> {
    match p {
        Some(p) => Some(g2_views(p@)),
        None => None,
    }
}

/// The bytes of a point of `G1`. A valid point decodes from them again.
pub fn encode_g1(p: &G1Point, compressed: bool) -> (r: Vec<u8>)
    ensures
        r@ == g1_encoding(p@, compressed),
        r.len() == g1_len(compressed),
        g1_is_valid(p@) ==> g1_decoding(r@, compressed) == Some(p@),
{
    g1_to_bytes(p, compressed)
}

/// The point of `G1` that bytes stand for, if they stand for one.
pub fn decode_g1(bytes: &[u8], compressed: bool) -> (r: Option<G1Point>)
    ensures
        g1_option_view(r) == g1_decoding(bytes@, compressed),
        r matches Some(p) ==> p.is_canonical() && g1_is_valid(p@),
{
    g1_from_bytes(bytes, compressed)
}

/// The bytes of a point of `G2`. A valid point decodes from them again.
pub fn encode_g2(p: &G2Point, compressed: bool) -> (r: Vec<u8>)
    ensures
        r@ == g2_encoding(p@, compressed),
        r.len() == g2_len(compressed),
        g2_is_valid(p@) ==> g2_decoding(r@, compressed) == Some(p@),
{
    g2_to_bytes(p, compressed)
}

/// The point of `G2` that bytes stand for, if they stand for one.
pub fn decode_g2(bytes: &[u8], compressed: bool) -> (r: Option<G2Point>)
    ensures
        g2_option_view(r) == g2_decoding(bytes@, compressed),
        r matches Some(p) ==> p.is_canonical() && g2_is_valid(p@),
{
    g2_from_bytes(bytes, compressed)
}

/// The bytes of an element of the target field. A valid element decodes
/// from them again.
pub fn encode_gt(t: &Gt) -> (r: Vec<u8>)
    ensures
        r@ == gt_encoding(t@),
        r.len() == gt_len(),
        gt_is_valid(t@) ==> gt_decoding(r@) == Some(t@),
{
    gt_to_bytes(t)
}

/// The element of the target field that bytes stand for, if they stand for
/// one.
pub fn decode_gt(bytes: &[u8]) -> (r: Option<Gt>)
    ensures
        gt_option_view(r) == gt_decoding(bytes@),
        r matches Some(t) ==> t.is_canonical() && gt_is_valid(t@),
{
    gt_from_bytes(bytes)
}

impl G1Point {
    /// Whether a point that is not at infinity lies on the curve.
    pub fn is_on_curve(&self) -> (r: bool)
        requires
            !self.infinity,
        ensures
            r == g1_is_valid(self@),
    {
        g1_check(self)
    }
}

impl G2Point {
    /// Whether a point that is not at infinity lies on the curve and in the
    /// group of prime order.
    pub fn is_in_group(&self) -> (r: bool)
        requires
            !self.infinity,
        ensures
            r == g2_is_valid(self@),
    {
        g2_check(self)
    }
}

/// Append the bytes of each point of `points` to `out`.
pub fn encode_g1_run(out: &mut Vec<u8>, points: &Vec<G1Point>, compressed: bool)
    ensures
        final(out)@ == old(out)@ + g1_run_encoding(
            g1_views(points@),
            points.len() as nat,
            compressed,
        ),
        g1_run_encoding(g1_views(points@), points.len() as nat, compressed).len() == points.len()
            * g1_len(compressed),
        g1_all_valid(g1_views(points@)) ==> g1_run_decoding(
            g1_run_encoding(g1_views(points@), points.len() as nat, compressed),
            points.len() as nat,
            compressed,
        ) == Some(g1_views(points@)),
{
    let ghost views = g1_views(points@);
    let mut i: usize = 0;
    while i < points.len()
        invariant
            i <= points.len(),
            views == g1_views(points@),
            out@ == old(out)@ + g1_run_encoding(views, i as nat, compressed),
            g1_run_encoding(views, i as nat, compressed).len() == i * g1_len(compressed),
            g1_all_valid(views) ==> g1_run_decoding(
                g1_run_encoding(views, i as nat, compressed),
                i as nat,
                compressed,
            ) == Some(views.subrange(0, i as int)),
        decreases points.len() - i,
    {
        let mut bytes = encode_g1(&points[i], compressed);
        proof {
            let before = g1_run_encoding(views, i as nat, compressed);
            let after = g1_run_encoding(views, (i + 1) as nat, compressed);
            let len = g1_len(compressed) as int;
            assert(after == before + bytes@);
            assert((i + 1) * len == i * len + len) by (nonlinear_arith);
            assert(after.subrange(0, i * len) =~= before);
            assert(after.subrange(i * len, (i + 1) * len) =~= bytes@);
            if g1_all_valid(views) {
                assert(g1_is_valid(views[i as int]));
                assert(before.subrange(0, i * len) =~= before);
                lemma_g1_run_decoding_prefix(after, before, i as nat, compressed);
                assert(views.subrange(0, i as int).push(views[i as int]) =~= views.subrange(
                    0,
                    i + 1,
                ));
            }
            assert(out@ + bytes@ =~= old(out)@ + after);
        }
        out.append(&mut bytes);
        i += 1;
    }
    assert(views.subrange(0, points.len() as int) =~= views);
}

/// The `count` points of `G1` that the bytes from `at` on stand for, if each
/// chunk stands for one.
pub fn decode_g1_run(bytes: &[u8], at: usize, count: usize, compressed: bool) -> (r: Option<
    Vec<G1Point>,
>)
    requires
        at + count * g1_len(compressed) <= bytes.len(),
    ensures
        g1_run_option_view(r) == g1_run_decoding(
            bytes@.subrange(at as int, at + count * g1_len(compressed)),
            count as nat,
            compressed,
        ),
        r matches Some(points) ==> points.len() == count && g1_all_valid(g1_views(points@)),
{
    let len: usize = if compressed {
        32
    } else {
        64
    };
    let ghost run = bytes@.subrange(at as int, at + count * g1_len(compressed));
    let mut out: Vec<G1Point> = Vec::new();
    let mut i: usize = 0;
    while i < count
        invariant
            i <= count,
            len == g1_len(compressed),
            at + count * len <= bytes.len(),
            run == bytes@.subrange(at as int, at + count * len),
            out.len() == i,
            g1_all_valid(g1_views(out@)),
            g1_run_decoding(run, i as nat, compressed) == Some(g1_views(out@)),
        decreases count - i,
    {
        assert(i * len + len <= count * len) by (nonlinear_arith)
            requires
                i < count,
        ;
        let chunk = slice_subrange(bytes, at + i * len, at + i * len + len);
        assert(chunk@ =~= run.subrange(i * len, (i + 1) * len)) by {
            assert((i + 1) * len == i * len + len) by (nonlinear_arith);
        }
        match decode_g1(chunk, compressed) {
            None => {
                proof {
                    lemma_g1_run_decoding_none(run, (i + 1) as nat, count as nat, compressed);
                }
                return None;
            },
            Some(p) => {
                let ghost before = g1_views(out@);
                out.push(p);
                assert(g1_views(out@) =~= before.push(p@));
            },
        }
        i += 1;
    }
    Some(out)
}

/// Where the first `k` chunks do not all decode, no longer run does.
pub proof fn lemma_g1_run_decoding_none(bytes: Seq<u8>, k: nat, count: nat, compressed: bool)
    requires
        k <= count,
        g1_run_decoding(bytes, k, compressed).is_none(),
    ensures
        g1_run_decoding(bytes, count, compressed).is_none(),
    decreases count,
{
    if k < count {
        lemma_g1_run_decoding_none(bytes, k, (count - 1) as nat, compressed);
    }
}

/// Append the bytes of each point of `points` to `out`.
pub fn encode_g2_run(out: &mut Vec<u8>, points: &Vec<G2Point>, compressed: bool)
    ensures
        final(out)@ == old(out)@ + g2_run_encoding(
            g2_views(points@),
            points.len() as nat,
            compressed,
        ),
        g2_run_encoding(g2_views(points@), points.len() as nat, compressed).len() == points.len()
            * g2_len(compressed),
        g2_all_valid(g2_views(points@)) ==> g2_run_decoding(
            g2_run_encoding(g2_views(points@), points.len() as nat, compressed),
            points.len() as nat,
            compressed,
        ) == Some(g2_views(points@)),
{
    let ghost views = g2_views(points@);
    let mut i: usize = 0;
    while i < points.len()
        invariant
            i <= points.len(),
            views == g2_views(points@),
            out@ == old(out)@ + g2_run_encoding(views, i as nat, compressed),
            g2_run_encoding(views, i as nat, compressed).len() == i * g2_len(compressed),
            g2_all_valid(views) ==> g2_run_decoding(
                g2_run_encoding(views, i as nat, compressed),
                i as nat,
                compressed,
            ) == Some(views.subrange(0, i as int)),
        decreases points.len() - i,
    {
        let mut bytes = encode_g2(&points[i], compressed);
        proof {
            let before = g2_run_encoding(views, i as nat, compressed);
            let after = g2_run_encoding(views, (i + 1) as nat, compressed);
            let len = g2_len(compressed) as int;
            assert(after == before + bytes@);
            assert((i + 1) * len == i * len + len) by (nonlinear_arith);
            assert(after.subrange(0, i * len) =~= before);
            assert(after.subrange(i * len, (i + 1) * len) =~= bytes@);
            if g2_all_valid(views) {
                assert(g2_is_valid(views[i as int]));
                assert(before.subrange(0, i * len) =~= before);
                lemma_g2_run_decoding_prefix(after, before, i as nat, compressed);
                assert(views.subrange(0, i as int).push(views[i as int]) =~= views.subrange(
                    0,
                    i + 1,
                ));
            }
            assert(out@ + bytes@ =~= old(out)@ + after);
        }
        out.append(&mut bytes);
        i += 1;
    }
    assert(views.subrange(0, points.len() as int) =~= views);
}

/// The `count` points of `G2` that the bytes from `at` on stand for, if each
/// chunk stands for one.
pub fn decode_g2_run(bytes: &[u8], at: usize, count: usize, compressed: bool) -> (r: Option<
    Vec<G2Point>,
>)
    requires
        at + count * g2_len(compressed) <= bytes.len(),
    ensures
        g2_run_option_view(r) == g2_run_decoding(
            bytes@.subrange(at as int, at + count * g2_len(compressed)),
            count as nat,
            compressed,
        ),
        r matches Some(points) ==> points.len() == count && g2_all_valid(g2_views(points@)),
{
    let len: usize = if compressed {
        64
    } else {
        128
    };
    let ghost run = bytes@.subrange(at as int, at + count * g2_len(compressed));
    let mut out: Vec<G2Point> = Vec::new();
    let mut i: usize = 0;
    while i < count
        invariant
            i <= count,
            len == g2_len(compressed),
            at + count * len <= bytes.len(),
            run == bytes@.subrange(at as int, at + count * len),
            out.len() == i,
            g2_all_valid(g2_views(out@)),
            g2_run_decoding(run, i as nat, compressed) == Some(g2_views(out@)),
        decreases count - i,
    {
        assert(i * len + len <= count * len) by (nonlinear_arith)
            requires
                i < count,
        ;
        let chunk = slice_subrange(bytes, at + i * len, at + i * len + len);
        assert(chunk@ =~= run.subrange(i * len, (i + 1) * len)) by {
            assert((i + 1) * len == i * len + len) by (nonlinear_arith);
        }
        match decode_g2(chunk, compressed) {
            None => {
                proof {
                    lemma_g2_run_decoding_none(run, (i + 1) as nat, count as nat, compressed);
                }
                return None;
            },
            Some(p) => {
                let ghost before = g2_views(out@);
                out.push(p);
                assert(g2_views(out@) =~= before.push(p@));
            },
        }
        i += 1;
    }
    Some(out)
}

/// Where the first `k` chunks do not all decode, no longer run does.
pub proof fn lemma_g2_run_decoding_none(bytes: Seq<u8>, k: nat, count: nat, compressed: bool)
    requires
        k <= count,
        g2_run_decoding(bytes, k, compressed).is_none(),
    ensures
        g2_run_decoding(bytes, count, compressed).is_none(),
    decreases count,
{
    if k < count {
        lemma_g2_run_decoding_none(bytes, k, (count - 1) as nat, compressed);
    }
}

/// `Valid::check` of `ark_bn254::G1Affine`: whether the point lies on the
/// curve. Deserialization with validation accepts exactly the encodings of
/// such points.
#[verifier::external_body]
fn g1_check(p: &G1Point) -> (r: bool)
    requires
        !p.infinity,
    ensures
        r == g1_is_valid(p@),
{
    let f = |c: &Fq| ArkFq::from(BigUint::from(BigInt(c.limbs)));
    G1Affine { x: f(&p.x), y: f(&p.y), infinity: p.infinity }.check().is_ok()
}

/// `Valid::check` of `ark_bn254::G2Affine`: whether the point lies on the
/// curve and in the group of prime order. Deserialization with validation
/// accepts exactly the encodings of such points.
#[verifier::external_body]
fn g2_check(p: &G2Point) -> (r: bool)
    requires
        !p.infinity,
    ensures
        r == g2_is_valid(p@),
{
    let f = |c: &Fq| ArkFq::from(BigUint::from(BigInt(c.limbs)));
    let k = |c: &Fq2| ArkFq2::new(f(&c.c0), f(&c.c1));
    G2Affine { x: k(&p.x), y: k(&p.y), infinity: p.infinity }.check().is_ok()
}

/// `CanonicalSerialize::serialize_with_mode` of `ark_bn254::G1Affine` into an
/// empty vector: 32 bytes compressed, 64 uncompressed, a function of the
/// coordinates and the mode alone. What
/// `CanonicalDeserialize::deserialize_with_mode` accepts with validation, it
/// gives back from these bytes.
#[verifier::external_body]
fn g1_to_bytes(p: &G1Point, compressed: bool) -> (r: Vec<u8>)
    ensures
        r@ == g1_encoding(p@, compressed),
        r.len() == g1_len(compressed),
        g1_is_valid(p@) ==> g1_decoding(r@, compressed) == Some(p@),
{
    let f = |c: &Fq| ArkFq::from(BigUint::from(BigInt(c.limbs)));
    let g = G1Affine { x: f(&p.x), y: f(&p.y), infinity: p.infinity };
    let mut out = Vec::new();
    g.serialize_with_mode(&mut out, if compressed { Compress::Yes } else { Compress::No }).unwrap();
    out
}

/// `CanonicalDeserialize::deserialize_with_mode` of `ark_bn254::G1Affine`
/// with validation: the point that the bytes stand for, where they stand for
/// one that lies on the curve.
#[verifier::external_body]
fn g1_from_bytes(bytes: &[u8], compressed: bool) -> (r: Option<G1Point>)
    ensures
        g1_option_view(r) == g1_decoding(bytes@, compressed),
        r matches Some(p) ==> p.is_canonical() && g1_is_valid(p@),
{
    let mode = if compressed { Compress::Yes } else { Compress::No };
    let g = G1Affine::deserialize_with_mode(bytes, mode, Validate::Yes).ok()?;
    let h = |c: ArkFq| Fq { limbs: c.into_bigint().0 };
    Some(G1Point { x: h(g.x), y: h(g.y), infinity: g.infinity })
}

/// `CanonicalSerialize::serialize_with_mode` of `ark_bn254::G2Affine` into an
/// empty vector: 64 bytes compressed, 128 uncompressed, a function of the
/// coordinates and the mode alone. What
/// `CanonicalDeserialize::deserialize_with_mode` accepts with validation, it
/// gives back from these bytes.
#[verifier::external_body]
fn g2_to_bytes(p: &G2Point, compressed: bool) -> (r: Vec<u8>)
    ensures
        r@ == g2_encoding(p@, compressed),
        r.len() == g2_len(compressed),
        g2_is_valid(p@) ==> g2_decoding(r@, compressed) == Some(p@),
{
    let f = |c: &Fq| ArkFq::from(BigUint::from(BigInt(c.limbs)));
    let k = |c: &Fq2| ArkFq2::new(f(&c.c0), f(&c.c1));
    let g = G2Affine { x: k(&p.x), y: k(&p.y), infinity: p.infinity };
    let mut out = Vec::new();
    g.serialize_with_mode(&mut out, if compressed { Compress::Yes } else { Compress::No }).unwrap();
    out
}

/// `CanonicalDeserialize::deserialize_with_mode` of `ark_bn254::G2Affine`
/// with validation: the point that the bytes stand for, where they stand for
/// one that lies on the curve and in the group of prime order.
#[verifier::external_body]
fn g2_from_bytes(bytes: &[u8], compressed: bool) -> (r: Option<G2Point>)
    ensures
        g2_option_view(r) == g2_decoding(bytes@, compressed),
        r matches Some(p) ==> p.is_canonical() && g2_is_valid(p@),
{
    let mode = if compressed { Compress::Yes } else { Compress::No };
    let g = G2Affine::deserialize_with_mode(bytes, mode, Validate::Yes).ok()?;
    let h = |c: ArkFq| Fq { limbs: c.into_bigint().0 };
    let k = |c: ArkFq2| Fq2 { c0: h(c.c0), c1: h(c.c1) };
    Some(G2Point { x: k(g.x), y: k(g.y), infinity: g.infinity })
}

/// `CanonicalSerialize::serialize_uncompressed` of `ark_bn254::Fq12` into an
/// empty vector: 384 bytes, a function of the coefficients alone. What
/// `CanonicalDeserialize::deserialize_uncompressed` accepts, it gives back
/// from these bytes.
#[verifier::external_body]
fn gt_to_bytes(t: &Gt) -> (r: Vec<u8>)
    ensures
        r@ == gt_encoding(t@),
        r.len() == gt_len(),
        gt_is_valid(t@) ==> gt_decoding(r@) == Some(t@),
{
    let x = t.c.map(|c| ArkFq::from(BigUint::from(BigInt(c.limbs))));
    let mut out = Vec::new();
    ArkFq12::from_base_prime_field_elems(&x).unwrap().serialize_uncompressed(&mut out).unwrap();
    out
}

/// `CanonicalDeserialize::deserialize_uncompressed` of `ark_bn254::Fq12`: the
/// element that the bytes stand for, where each coefficient is a least
/// residue.
#[verifier::external_body]
fn gt_from_bytes(bytes: &[u8]) -> (r: Option<Gt>)
    ensures
        gt_option_view(r) == gt_decoding(bytes@),
        r matches Some(t) ==> t.is_canonical() && gt_is_valid(t@),
{
    let t = ArkFq12::deserialize_uncompressed(bytes).ok()?;
    let v: Vec<Fq> = t.to_base_prime_field_elements().map(|c| Fq { limbs: c.into_bigint().0 }).collect();
    Some(Gt { c: v.try_into().unwrap() })
}

} // verus!

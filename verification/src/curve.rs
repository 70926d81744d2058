//! The groups of BN254 and its pairing.
//!
//! Points are held in affine coordinates as plain field elements. The group
//! laws and the pairing are computed by `ark-ec`; each has a name here, a
//! function of the coordinates alone, and the contracts of this crate are
//! stated over those names.
use crate::field::{fr_views, Fq, Fr};
use ark_bn254::{
    Bn254, Fq as ArkFq, Fq12 as ArkFq12, Fq2 as ArkFq2, Fr as ArkFr, G1Affine, G1Projective, G2Affine,
};
use ark_ec::pairing::{MillerLoopOutput, Pairing};
use ark_ec::{AffineRepr, CurveGroup, VariableBaseMSM};
use ark_ff::{BigInt, Field, PrimeField};
use core::ops::Neg;
use num_bigint::BigUint;
use vstd::prelude::*;

verus! {

/// An element of the quadratic extension of the base field, `c0 + c1 * u`.
#[derive(Clone, Copy, Debug, PartialEq, Eq)]
pub struct Fq2 {
    pub c0: Fq,
    pub c1: Fq,
}

impl View for Fq2 {
    type V = (nat, nat);

    open spec fn view(&self) -> (nat, nat) {
        (self.c0@, self.c1@)
    }
}

impl Fq2 {
    /// Whether both coefficients hold their least residue.
    pub open spec fn is_canonical(&self) -> bool {
        self.c0.is_canonical() && self.c1.is_canonical()
    }

    /// Whether two elements have the same coefficients.
    pub fn same_value(&self, other: &Fq2) -> (b: bool)
        ensures
            b == (self@ == other@),
    {
        self.c0.same_value(&other.c0) && self.c1.same_value(&other.c1)
    }
}

/// What a point of `G1` is, mathematically: two residues and a flag for the
/// point at infinity.
pub struct G1Spec {
    pub x: nat,
    pub y: nat,
    pub infinity: bool,
}

/// What a point of `G2` is: two elements of the quadratic extension and a
/// flag for the point at infinity.
pub struct G2Spec {
    pub x: (nat, nat),
    pub y: (nat, nat),
    pub infinity: bool,
}

/// The point at infinity of `G1` as `ark-ec` writes it.
pub open spec fn g1_identity() -> G1Spec {
    G1Spec { x: 0, y: 0, infinity: true }
}

/// The generator of `G1`: the point `(1, 2)`.
pub open spec fn g1_generator() -> G1Spec {
    G1Spec { x: 1, y: 2, infinity: false }
}

/// The point at infinity of `G2` as `ark-ec` writes it.
pub open spec fn g2_identity() -> G2Spec {
    G2Spec { x: (0, 0), y: (0, 0), infinity: true }
}

/// The generator of `G2` that `ark-bn254` fixes.
pub open spec fn g2_generator() -> G2Spec {
    G2Spec {
        x: (
            10857046999023057135944570762232829481370756359578518086990519993285655852781nat,
            11559732032986387107991004021392285783925812861821192530917403151452391805634nat,
        ),
        y: (
            8495653923123431417604973247489272438418190587263600148770280649306958101930nat,
            4082367875863433681332203403145435568316851327593401208105741076214120093531nat,
        ),
        infinity: false,
    }
}

/// The negative of a residue of the base field.
pub open spec fn fq_negated(v: nat) -> nat {
    ((crate::field::fq_modulus() - v) % (crate::field::fq_modulus() as int)) as nat
}

/// The inverse of a point of `G2`: infinity stays, else `y` changes sign.
pub open spec fn g2_negated(p: G2Spec) -> G2Spec {
    if p.infinity {
        g2_identity()
    } else {
        G2Spec { x: p.x, y: (fq_negated(p.y.0), fq_negated(p.y.1)), infinity: false }
    }
}

/// The inverse of a point of `G1`: infinity stays, else `y` changes sign.
pub open spec fn g1_negated(p: G1Spec) -> G1Spec {
    if p.infinity {
        g1_identity()
    } else {
        G1Spec { x: p.x, y: fq_negated(p.y), infinity: false }
    }
}

/// The sum of the points `bases[i]` times the scalars `scalars[i]`, as
/// `ark-ec` computes it for `G1`.
pub uninterp spec fn g1_msm(bases: Seq<G1Spec>, scalars: Seq<nat>) -> G1Spec;

/// The sum of the first `n` points `bases[i]` times the scalars
/// `scalars[i]` in `G2`, added up from the left, starting from the point at
/// infinity.
pub open spec fn g2_sum_of_multiples(bases: Seq<G2Spec>, scalars: Seq<nat>, n: nat) -> G2Spec
    decreases n,
{
    if n == 0 {
        g2_identity()
    } else {
        g2_add(
            g2_sum_of_multiples(bases, scalars, (n - 1) as nat),
            g2_mul(bases[n - 1], scalars[n - 1]),
        )
    }
}

/// The sum of two points of `G1`, as `ark-ec` computes it.
pub uninterp spec fn g1_add(a: G1Spec, b: G1Spec) -> G1Spec;

/// The multiple of a point of `G1` by a scalar, as `ark-ec` computes it.
pub uninterp spec fn g1_mul(p: G1Spec, s: nat) -> G1Spec;

/// The sum of two points of `G2`, as `ark-ec` computes it.
pub uninterp spec fn g2_add(a: G2Spec, b: G2Spec) -> G2Spec;

/// The multiple of a point of `G2` by a scalar, as `ark-ec` computes it.
pub uninterp spec fn g2_mul(p: G2Spec, s: nat) -> G2Spec;

/// The product of the Miller loops of the pairs `(a[i], b[i])`: twelve
/// residues of the base field.
pub uninterp spec fn miller_loop(a: Seq<G1Spec>, b: Seq<G2Spec>) -> Seq<nat>;

/// The final exponentiation of a Miller loop's output, where it is defined.
pub uninterp spec fn final_exp(f: Seq<nat>) -> Option<Seq<nat>>;

/// The pairing of one point of `G1` with one of `G2`, where it is defined.
pub open spec fn pairing_value(p: G1Spec, q: G2Spec) -> Option<Seq<nat>> {
    final_exp(miller_loop(seq![p], seq![q]))
}

/// A point of `G1` in affine coordinates.
#[derive(Clone, Copy, Debug, PartialEq, Eq)]
pub struct G1Point {
    pub x: Fq,
    pub y: Fq,
    pub infinity: bool,
}

impl View for G1Point {
    type V = G1Spec;

    open spec fn view(&self) -> G1Spec {
        G1Spec { x: self.x@, y: self.y@, infinity: self.infinity }
    }
}

impl G1Point {
    /// Whether both coordinates hold their least residue.
    pub open spec fn is_canonical(&self) -> bool {
        self.x.is_canonical() && self.y.is_canonical()
    }

    /// The point at infinity.
    pub fn identity() -> (r: G1Point)
        ensures
            r.is_canonical(),
            r@ == g1_identity(),
    {
        G1Point { x: Fq::zero(), y: Fq::zero(), infinity: true }
    }

    /// The generator of the group.
    pub fn generator() -> (r: G1Point)
        ensures
            r.is_canonical(),
            r@ == g1_generator(),
    {
        G1Point { x: Fq::from_u64(1), y: Fq::from_u64(2), infinity: false }
    }

    /// The inverse of the point.
    pub fn neg(&self) -> (r: G1Point)
        ensures
            r.is_canonical(),
            r@ == g1_negated(self@),
    {
        g1_neg_point(self)
    }

    /// The sum of two points.
    pub fn add(&self, rhs: &G1Point) -> (r: G1Point)
        ensures
            r.is_canonical(),
            r@ == g1_add(self@, rhs@),
    {
        g1_add_points(self, rhs)
    }

    /// The multiple of the point by a scalar.
    pub fn mul(&self, s: &Fr) -> (r: G1Point)
        ensures
            r.is_canonical(),
            r@ == g1_mul(self@, s@),
    {
        g1_mul_point(self, s)
    }

    /// Whether two points have the same coordinates and flag.
    pub fn same_value(&self, other: &G1Point) -> (b: bool)
        ensures
            b == (self@ == other@),
    {
        self.x.same_value(&other.x) && self.y.same_value(&other.y) && self.infinity
            == other.infinity
    }
}

/// A point of `G2` in affine coordinates.
#[derive(Clone, Copy, Debug, PartialEq, Eq)]
pub struct G2Point {
    pub x: Fq2,
    pub y: Fq2,
    pub infinity: bool,
}

impl View for G2Point {
    type V = G2Spec;

    open spec fn view(&self) -> G2Spec {
        G2Spec { x: self.x@, y: self.y@, infinity: self.infinity }
    }
}

impl G2Point {
    /// Whether all four coefficients hold their least residue.
    pub open spec fn is_canonical(&self) -> bool {
        self.x.is_canonical() && self.y.is_canonical()
    }

    /// The point at infinity.
    pub fn identity() -> (r: G2Point)
        ensures
            r.is_canonical(),
            r@ == g2_identity(),
    {
        G2Point {
            x: Fq2 { c0: Fq::zero(), c1: Fq::zero() },
            y: Fq2 { c0: Fq::zero(), c1: Fq::zero() },
            infinity: true,
        }
    }

    /// The generator of the group.
    pub fn generator() -> (r: G2Point)
        ensures
            r.is_canonical(),
            r@ == g2_generator(),
    {
        G2Point {
            x: Fq2 {
                c0: Fq {
                    limbs: [
                        0x46debd5cd992f6ed,
                        0x674322d4f75edadd,
                        0x426a00665e5c4479,
                        0x1800deef121f1e76,
                    ],
                },
                c1: Fq {
                    limbs: [
                        0x97e485b7aef312c2,
                        0xf1aa493335a9e712,
                        0x7260bfb731fb5d25,
                        0x198e9393920d483a,
                    ],
                },
            },
            y: Fq2 {
                c0: Fq {
                    limbs: [
                        0x4ce6cc0166fa7daa,
                        0xe3d1e7690c43d37b,
                        0x4aab71808dcb408f,
                        0x12c85ea5db8c6deb,
                    ],
                },
                c1: Fq {
                    limbs: [
                        0x55acdadcd122975b,
                        0xbc4b313370b38ef3,
                        0xec9e99ad690c3395,
                        0x090689d0585ff075,
                    ],
                },
            },
            infinity: false,
        }
    }

    /// The inverse of the point.
    pub fn neg(&self) -> (r: G2Point)
        ensures
            r.is_canonical(),
            r@ == g2_negated(self@),
    {
        g2_neg_point(self)
    }

    /// The sum of two points.
    pub fn add(&self, rhs: &G2Point) -> (r: G2Point)
        ensures
            r.is_canonical(),
            r@ == g2_add(self@, rhs@),
    {
        g2_add_points(self, rhs)
    }

    /// The multiple of the point by a scalar.
    pub fn mul(&self, s: &Fr) -> (r: G2Point)
        ensures
            r.is_canonical(),
            r@ == g2_mul(self@, s@),
    {
        g2_mul_point(self, s)
    }

    /// Whether two points have the same coordinates and flag.
    pub fn same_value(&self, other: &G2Point) -> (b: bool)
        ensures
            b == (self@ == other@),
    {
        self.x.same_value(&other.x) && self.y.same_value(&other.y) && self.infinity
            == other.infinity
    }
}

/// An element of the field that hosts the target group: twelve coefficients
/// over the base field, in the order of `ark-ff`'s tower (`Fq12` over `Fq6`
/// over `Fq2`).
#[derive(Clone, Copy, Debug, PartialEq, Eq)]
pub struct Gt {
    pub c: [Fq; 12],
}

impl View for Gt {
    type V = Seq<nat>;

    open spec fn view(&self) -> Seq<nat> {
        Seq::new(12, |i: int| self.c[i]@)
    }
}

impl Gt {
    /// Whether all twelve coefficients hold their least residue.
    pub open spec fn is_canonical(&self) -> bool {
        forall|i: int| 0 <= i < 12 ==> (#[trigger] self.c[i]).is_canonical()
    }

    /// Whether two elements have the same coefficients.
    pub fn same_value(&self, other: &Gt) -> (b: bool)
        ensures
            b == (self@ == other@),
    {
        let mut i: usize = 0;
        while i < 12
            invariant
                i <= 12,
                forall|j: int| 0 <= j < i ==> self.c[j]@ == other.c[j]@,
            decreases 12 - i,
        {
            if !self.c[i].same_value(&other.c[i]) {
                assert(self@[i as int] != other@[i as int]);
                return false;
            }
            i += 1;
        }
        assert(self@ =~= other@);
        true
    }
}

/// The sum of the points of `G1` times their scalars.
pub fn msm_g1(bases: &Vec<G1Point>, scalars: &Vec<Fr>) -> (r: G1Point)
    requires
        bases.len() == scalars.len(),
    ensures
        r.is_canonical(),
        r@ == g1_msm(g1_views(bases@), fr_views(scalars@)),
{
    g1_msm_points(bases, scalars)
}

/// The sum of the points of `G2` times their scalars.
pub fn msm_g2(bases: &Vec<G2Point>, scalars: &Vec<Fr>) -> (r: G2Point)
    requires
        bases.len() == scalars.len(),
    ensures
        r.is_canonical(),
        r@ == g2_sum_of_multiples(g2_views(bases@), fr_views(scalars@), bases.len() as nat),
{
    let mut sum = G2Point::identity();
    let mut i: usize = 0;
    while i < bases.len()
        invariant
            i <= bases.len(),
            bases.len() == scalars.len(),
            sum.is_canonical(),
            sum@ == g2_sum_of_multiples(g2_views(bases@), fr_views(scalars@), i as nat),
        decreases bases.len() - i,
    {
        sum = sum.add(&bases[i].mul(&scalars[i]));
        i += 1;
    }
    sum
}

/// The product of the Miller loops of the pairs `(a[i], b[i])`.
pub fn multi_miller_loop(a: &Vec<G1Point>, b: &Vec<G2Point>) -> (r: Gt)
    requires
        a.len() == b.len(),
    ensures
        r.is_canonical(),
        r@ == miller_loop(g1_views(a@), g2_views(b@)),
{
    miller_loop_pairs(a, b)
}

/// The final exponentiation, which fails exactly where [`final_exp`] is `None`.
pub fn final_exponentiation(f: &Gt) -> (r: Option<Gt>)
    ensures
        r.is_none() <==> final_exp(f@).is_none(),
        r matches Some(t) ==> t.is_canonical() && Some(t@) == final_exp(f@),
{
    final_exp_value(f)
}

/// The pairing of two points, where it is defined.
pub fn pairing(p: &G1Point, q: &G2Point) -> (r: Option<Gt>)
    ensures
        r.is_none() <==> pairing_value(p@, q@).is_none(),
        r matches Some(t) ==> t.is_canonical() && Some(t@) == pairing_value(p@, q@),
{
    let a: Vec<G1Point> = vec![*p];
    let b: Vec<G2Point> = vec![*q];
    assert(g1_views(a@) =~= seq![p@]);
    assert(g2_views(b@) =~= seq![q@]);
    let f = miller_loop_pairs(&a, &b);
    final_exp_value(&f)
}

/// The views of a sequence of points of `G1`.
pub open spec fn g1_views(s: Seq<G1Point>) -> Seq<G1Spec> {
    Seq::new(s.len(), |i: int| s[i]@)
}

/// The views of a sequence of points of `G2`.
pub open spec fn g2_views(s: Seq<G2Point>) -> Seq<G2Spec> {
    Seq::new(s.len(), |i: int| s[i]@)
}

/// Addition of two affine points of `ark_bn254::G1Affine` (`core::ops::Add`)
/// followed by `CurveGroup::into_affine`. The result depends on the
/// coordinates alone.
#[verifier::external_body]
fn g1_add_points(a: &G1Point, b: &G1Point) -> (r: G1Point)
    ensures
        r.is_canonical(),
        r@ == g1_add(a@, b@),
{
    let f = |c: &Fq| ArkFq::from(BigUint::from(BigInt(c.limbs)));
    let g = |p: &G1Point| G1Affine { x: f(&p.x), y: f(&p.y), infinity: p.infinity };
    let s = (g(a) + g(b)).into_affine();
    let h = |c: ArkFq| Fq { limbs: c.into_bigint().0 };
    G1Point { x: h(s.x), y: h(s.y), infinity: s.infinity }
}

/// `AffineRepr::into_group`, `core::ops::Neg` and `CurveGroup::into_affine`
/// on `ark_bn254::G1Affine`: the point at infinity goes to the point at
/// infinity with zero coordinates, any other point keeps `x` and has `y`
/// negated.
#[verifier::external_body]
fn g1_neg_point(p: &G1Point) -> (r: G1Point)
    ensures
        r.is_canonical(),
        r@ == g1_negated(p@),
{
    let f = |c: &Fq| ArkFq::from(BigUint::from(BigInt(c.limbs)));
    let g = G1Affine { x: f(&p.x), y: f(&p.y), infinity: p.infinity };
    let n = g.into_group().neg().into_affine();
    let h = |c: ArkFq| Fq { limbs: c.into_bigint().0 };
    G1Point { x: h(n.x), y: h(n.y), infinity: n.infinity }
}

/// `VariableBaseMSM::msm_unchecked` of `ark_bn254::G1Projective`, followed by
/// `CurveGroup::into_affine`. The result depends on the coordinates of the
/// bases and the residues of the scalars alone.
#[verifier::external_body]
fn g1_msm_points(bases: &Vec<G1Point>, scalars: &Vec<Fr>) -> (r: G1Point)
    requires
        bases.len() == scalars.len(),
    ensures
        r.is_canonical(),
        r@ == g1_msm(g1_views(bases@), fr_views(scalars@)),
{
    let f = |c: &Fq| ArkFq::from(BigUint::from(BigInt(c.limbs)));
    let b: Vec<G1Affine> = bases.iter().map(|p| G1Affine { x: f(&p.x), y: f(&p.y), infinity: p.infinity }).collect();
    let k: Vec<ArkFr> = scalars.iter().map(|s| ArkFr::from(BigUint::from(BigInt(s.limbs)))).collect();
    let m = G1Projective::msm_unchecked(&b, &k).into_affine();
    let h = |c: ArkFq| Fq { limbs: c.into_bigint().0 };
    G1Point { x: h(m.x), y: h(m.y), infinity: m.infinity }
}

/// `AffineRepr::mul_bigint` on `ark_bn254::G1Affine` with the scalar's least
/// residue, followed by `CurveGroup::into_affine`. The result depends on the
/// coordinates and the scalar's residue alone.
#[verifier::external_body]
fn g1_mul_point(p: &G1Point, s: &Fr) -> (r: G1Point)
    ensures
        r.is_canonical(),
        r@ == g1_mul(p@, s@),
{
    let f = |c: &Fq| ArkFq::from(BigUint::from(BigInt(c.limbs)));
    let g = G1Affine { x: f(&p.x), y: f(&p.y), infinity: p.infinity };
    let k = ArkFr::from(BigUint::from(BigInt(s.limbs)));
    let m = g.mul_bigint(k.into_bigint()).into_affine();
    let h = |c: ArkFq| Fq { limbs: c.into_bigint().0 };
    G1Point { x: h(m.x), y: h(m.y), infinity: m.infinity }
}

/// `AffineRepr::into_group`, `core::ops::Neg` and `CurveGroup::into_affine`
/// on `ark_bn254::G2Affine`: the point at infinity goes to the point at
/// infinity with zero coordinates, any other point keeps `x` and has both
/// coefficients of `y` negated.
#[verifier::external_body]
fn g2_neg_point(p: &G2Point) -> (r: G2Point)
    ensures
        r.is_canonical(),
        r@ == g2_negated(p@),
{
    let f = |c: &Fq2| ArkFq2::new(ArkFq::from(BigUint::from(BigInt(c.c0.limbs))), ArkFq::from(BigUint::from(BigInt(c.c1.limbs))));
    let g = G2Affine { x: f(&p.x), y: f(&p.y), infinity: p.infinity };
    let n = g.into_group().neg().into_affine();
    let h = |c: ArkFq2| Fq2 { c0: Fq { limbs: c.c0.into_bigint().0 }, c1: Fq { limbs: c.c1.into_bigint().0 } };
    G2Point { x: h(n.x), y: h(n.y), infinity: n.infinity }
}

/// Addition of two affine points of `ark_bn254::G2Affine` (`core::ops::Add`)
/// followed by `CurveGroup::into_affine`. The result depends on the
/// coordinates alone.
#[verifier::external_body]
fn g2_add_points(a: &G2Point, b: &G2Point) -> (r: G2Point)
    ensures
        r.is_canonical(),
        r@ == g2_add(a@, b@),
{
    let f = |c: &Fq2| ArkFq2::new(ArkFq::from(BigUint::from(BigInt(c.c0.limbs))), ArkFq::from(BigUint::from(BigInt(c.c1.limbs))));
    let g = |p: &G2Point| G2Affine { x: f(&p.x), y: f(&p.y), infinity: p.infinity };
    let s = (g(a) + g(b)).into_affine();
    let h = |c: ArkFq2| Fq2 { c0: Fq { limbs: c.c0.into_bigint().0 }, c1: Fq { limbs: c.c1.into_bigint().0 } };
    G2Point { x: h(s.x), y: h(s.y), infinity: s.infinity }
}

/// `AffineRepr::mul_bigint` on `ark_bn254::G2Affine` with the scalar's least
/// residue, followed by `CurveGroup::into_affine`. The result depends on the
/// coordinates and the scalar's residue alone.
#[verifier::external_body]
fn g2_mul_point(p: &G2Point, s: &Fr) -> (r: G2Point)
    ensures
        r.is_canonical(),
        r@ == g2_mul(p@, s@),
{
    let f = |c: &Fq2| ArkFq2::new(ArkFq::from(BigUint::from(BigInt(c.c0.limbs))), ArkFq::from(BigUint::from(BigInt(c.c1.limbs))));
    let g = G2Affine { x: f(&p.x), y: f(&p.y), infinity: p.infinity };
    let k = ArkFr::from(BigUint::from(BigInt(s.limbs)));
    let m = g.mul_bigint(k.into_bigint()).into_affine();
    let h = |c: ArkFq2| Fq2 { c0: Fq { limbs: c.c0.into_bigint().0 }, c1: Fq { limbs: c.c1.into_bigint().0 } };
    G2Point { x: h(m.x), y: h(m.y), infinity: m.infinity }
}

/// `Pairing::multi_miller_loop` of `ark_bn254::Bn254` on the pairs
/// `(a[i], b[i])`. It panics where the two lists differ in length. The output
/// depends on the coordinates alone.
#[verifier::external_body]
fn miller_loop_pairs(a: &Vec<G1Point>, b: &Vec<G2Point>) -> (r: Gt)
    requires
        a.len() == b.len(),
    ensures
        r.is_canonical(),
        r@ == miller_loop(g1_views(a@), g2_views(b@)),
{
    let f = |c: &Fq| ArkFq::from(BigUint::from(BigInt(c.limbs)));
    let k = |c: &Fq2| ArkFq2::new(f(&c.c0), f(&c.c1));
    let m = Bn254::multi_miller_loop(
        a.iter().map(|p| G1Affine { x: f(&p.x), y: f(&p.y), infinity: p.infinity }),
        b.iter().map(|q| G2Affine { x: k(&q.x), y: k(&q.y), infinity: q.infinity })
    );
    let v = m.0.to_base_prime_field_elements().map(|c| Fq { limbs: c.into_bigint().0 });
    Gt { c: v.collect::<Vec<_>>().try_into().unwrap() }
}

/// `Pairing::final_exponentiation` of `ark_bn254::Bn254`: `None` where the
/// argument has no inverse, else an element that depends on the argument's
/// coefficients alone.
#[verifier::external_body]
fn final_exp_value(f: &Gt) -> (r: Option<Gt>)
    ensures
        r.is_none() <==> final_exp(f@).is_none(),
        r matches Some(t) ==> t.is_canonical() && Some(t@) == final_exp(f@),
{
    let x = f.c.map(|c| ArkFq::from(BigUint::from(BigInt(c.limbs))));
    let m = MillerLoopOutput(ArkFq12::from_base_prime_field_elems(&x).unwrap());
    let h = |c: ArkFq| Fq { limbs: c.into_bigint().0 };
    let t = Bn254::final_exponentiation(m)?.0;
    let v: Vec<Fq> = t.to_base_prime_field_elements().map(h).collect();
    Some(Gt { c: v.try_into().unwrap() })
}

} // verus!

//! The twisted Edwards curve whose base field is the scalar field of BN254.
//!
//! Points are held in affine coordinates. The group law is computed by
//! `ark-ec`; sum and multiple each have a name here, a function of the
//! coordinates alone. The law is complete on the curve, so what is added or
//! multiplied has to lie on it.
use crate::field::{fr_difference, fr_modulus, fr_product, fr_sum, limbs_value, Fr};
use ark_ec::CurveGroup;
use ark_ed_on_bn254::{EdwardsAffine, EdwardsProjective, Fr as ArkEdFr};
use ark_ff::{BigInt, PrimeField, UniformRand};
use num_bigint::BigUint;
use rand::rngs::StdRng;
use vstd::prelude::*;

verus! {

/// The order of the curve's group of prime order, which is the order of its
/// scalar field.
pub open spec fn ed_order() -> nat {
    2736030358979909402780800718157159386076813972158567259200215660948447373041nat
}

/// The coefficient `d` of the curve `x^2 + y^2 = 1 + d * x^2 * y^2`.
pub open spec fn ed_coeff_d() -> nat {
    9706598848417545097372247223557719406784115219466060233080913168975159366771nat
}

/// Whether `(x, y)` lies on the curve.
#[verifier::opaque]
pub open spec fn ed_on_curve(p: (nat, nat)) -> bool {
    let x2 = fr_product(p.0, p.0);
    let y2 = fr_product(p.1, p.1);
    fr_sum(x2, y2) == fr_sum(1, fr_product(ed_coeff_d(), fr_product(x2, y2)))
}

/// The sum of two points of the curve, as `ark-ec` computes it.
pub uninterp spec fn ed_add(a: (nat, nat), b: (nat, nat)) -> (nat, nat);

/// The multiple of a point of the curve by a scalar, as `ark-ec` computes it.
pub uninterp spec fn ed_mul(p: (nat, nat), s: nat) -> (nat, nat);

/// Whether a point of the curve lies in its group of prime order.
pub uninterp spec fn ed_in_prime_subgroup(p: (nat, nat)) -> bool;

/// The inverse of a point: `x` changes sign.
pub open spec fn ed_negated(p: (nat, nat)) -> (nat, nat) {
    (fr_difference(0, p.0), p.1)
}

/// The neutral element of the curve.
pub open spec fn ed_zero() -> (nat, nat) {
    (0, 1)
}

/// A point of the curve in affine coordinates.
#[derive(Clone, Copy, Debug, PartialEq, Eq)]
pub struct EdPoint {
    pub x: Fr,
    pub y: Fr,
}

impl View for EdPoint {
    type V = (nat, nat);

    open spec fn view(&self) -> (nat, nat) {
        (self.x@, self.y@)
    }
}

/// A scalar of the curve: an integer modulo the order of its group.
#[derive(Clone, Copy, Debug, PartialEq, Eq)]
pub struct EdScalar {
    pub limbs: [u64; 4],
}

impl View for EdScalar {
    type V = nat;

    open spec fn view(&self) -> nat {
        limbs_value(self.limbs) % ed_order()
    }
}

impl EdScalar {
    /// The scalar that stands for a machine integer.
    pub fn from_u64(v: u64) -> (r: EdScalar)
        ensures
            r@ == v,
    {
        EdScalar { limbs: [v, 0, 0, 0] }
    }

    /// A uniformly random scalar. Nothing is known of it but that its limbs
    /// hold a least residue, so that two draws are the same scalar exactly
    /// when their limbs are the same.
    pub fn rand(rng: &mut StdRng) -> (r: EdScalar)
        ensures
            r.is_canonical(),
            r@ == limbs_value(r.limbs),
    {
        let r = ed_scalar_rand(rng);
        proof {
            vstd::arithmetic::div_mod::lemma_small_mod(limbs_value(r.limbs), ed_order());
        }
        r
    }

    /// Whether the limbs hold the least residue of the scalar.
    pub open spec fn is_canonical(&self) -> bool {
        limbs_value(self.limbs) < ed_order()
    }
}

impl EdPoint {
    /// The generator, as a value of specifications.
    pub open spec fn generator_value() -> EdPoint {
        EdPoint {
            x: Fr {
                limbs: [
                    0x59d2810d82876c32,
                    0xe3bc429aad7e344d,
                    0x1d41e7dedf4a927e,
                    0x2b8cfd91b905cae3,
                ],
            },
            y: Fr {
                limbs: [
                    0xc276fc2c671a861f,
                    0x2a7c1115dbc0e16a,
                    0x90aced1f10277b76,
                    0x2aaa6c24a758209e,
                ],
            },
        }
    }

    /// The generator of the group of prime order that `ark-ed-on-bn254`
    /// fixes.
    pub fn generator() -> (r: EdPoint)
        ensures
            ed_on_curve(r@),
            r == EdPoint::generator_value(),
            r@ == (
                19698561148652590122159747500897617769866003486955115824547446575314762165298nat,
                19298250018296453272277890825869354524455968081175474282777126169995084727839nat,
            ),
    {
        proof {
            reveal(ed_on_curve);
            let gx = 19698561148652590122159747500897617769866003486955115824547446575314762165298nat;
            let gy = 19298250018296453272277890825869354524455968081175474282777126169995084727839nat;
            let x2 = 9341942217182705637707002250448486015774210065548384544242550144626051584013nat;
            let y2 = 7298982249860915780107691065002265410480891968511132387417309879831536954131nat;
            let xy = 6688484749947905163354563655388075046929789542838759330005551639529912198884nat;
            let dxy = 16640924467043621417814693315450751426255102034059516931659860024457588538143nat;
            assert(fr_product(gx, gx) == x2);
            assert(fr_product(gy, gy) == y2);
            assert(fr_product(x2, y2) == xy);
            assert(fr_product(ed_coeff_d(), xy) == dxy);
            assert(fr_sum(x2, y2) == fr_sum(1, dxy));
            assert(ed_on_curve((gx, gy)));
        }
        EdPoint {
            x: Fr {
                limbs: [
                    0x59d2810d82876c32,
                    0xe3bc429aad7e344d,
                    0x1d41e7dedf4a927e,
                    0x2b8cfd91b905cae3,
                ],
            },
            y: Fr {
                limbs: [
                    0xc276fc2c671a861f,
                    0x2a7c1115dbc0e16a,
                    0x90aced1f10277b76,
                    0x2aaa6c24a758209e,
                ],
            },
        }
    }

    /// Whether the point lies on the curve.
    pub fn is_on_curve(&self) -> (r: bool)
        ensures
            r == ed_on_curve(self@),
    {
        let d = Fr {
            limbs: [
                    0x736c2b06fb281473,
                    0x2498beee8e01a829,
                    0x7a5fd2dee7844661,
                    0x1575bd81821016c0,
                ],
        };
        reveal(ed_on_curve);
        let x2 = self.x.mul(&self.x);
        let y2 = self.y.mul(&self.y);
        let lhs = x2.add(&y2);
        let rhs = Fr::one().add(&d.mul(&x2.mul(&y2)));
        lhs.same_value(&rhs)
    }

    /// Whether a point of the curve lies in its group of prime order.
    pub fn is_in_prime_subgroup(&self) -> (r: bool)
        requires
            ed_on_curve(self@),
        ensures
            r == ed_in_prime_subgroup(self@),
    {
        ed_subgroup_check(self)
    }

    /// The sum of two points of the curve.
    pub fn add(&self, rhs: &EdPoint) -> (r: EdPoint)
        requires
            ed_on_curve(self@),
            ed_on_curve(rhs@),
        ensures
            ed_on_curve(r@),
            r@ == ed_add(self@, rhs@),
    {
        ed_add_points(self, rhs)
    }

    /// The multiple of a point of the curve by a scalar.
    pub fn mul(&self, s: &EdScalar) -> (r: EdPoint)
        requires
            ed_on_curve(self@),
        ensures
            ed_on_curve(r@),
            r@ == ed_mul(self@, s@),
    {
        ed_mul_point(self, s)
    }

    /// The inverse of the point.
    pub fn neg(&self) -> (r: EdPoint)
        ensures
            r@ == ed_negated(self@),
            ed_on_curve(self@) ==> ed_on_curve(r@),
    {
        proof {
            if ed_on_curve(self@) {
                lemma_negated_on_curve(self@);
            }
        }
        EdPoint { x: Fr::zero().sub(&self.x), y: self.y }
    }

    /// Whether the point is the neutral element.
    pub fn is_zero(&self) -> (r: bool)
        ensures
            r == (self@ == ed_zero()),
    {
        self.x.is_zero() && self.y.same_value(&Fr::one())
    }

    /// Whether two points have the same coordinates.
    pub fn same_value(&self, other: &EdPoint) -> (r: bool)
        ensures
            r == (self@ == other@),
    {
        self.x.same_value(&other.x) && self.y.same_value(&other.y)
    }

    /// A uniformly random point of the group of prime order.
    pub fn rand(rng: &mut StdRng) -> (r: EdPoint)
        ensures
            ed_on_curve(r@),
    {
        ed_point_rand(rng)
    }
}

/// The inverse of a point of the curve lies on the curve.
pub proof fn lemma_negated_on_curve(p: (nat, nat))
    requires
        ed_on_curve(p),
        p.0 < fr_modulus(),
    ensures
        ed_on_curve(ed_negated(p)),
{
    reveal(ed_on_curve);
    let m = fr_modulus() as int;
    let x = p.0 as int;
    let n = fr_difference(0, p.0) as int;
    assert(fr_product(n as nat, n as nat) == fr_product(p.0, p.0)) by {
        if x == 0 {
            assert(n == 0);
        } else {
            assert(n == m - x) by {
                vstd::arithmetic::div_mod::lemma_small_mod((m - x) as nat, m as nat);
            }
            assert((m - x) * (m - x) == x * x + m * (m - 2 * x)) by (nonlinear_arith);
            vstd::arithmetic::div_mod::lemma_mod_multiples_vanish(m - 2 * x, x * x, m);
            assert(m * (m - 2 * x) == (m - 2 * x) * m) by (nonlinear_arith);
        }
    }
}

/// Addition of two affine points of `ark_ed_on_bn254::EdwardsAffine`
/// (`core::ops::Add`) followed by `CurveGroup::into_affine`. On points of
/// the curve the addition law is complete: the sum is a point of the curve,
/// and depends on the coordinates alone.
#[verifier::external_body]
fn ed_add_points(a: &EdPoint, b: &EdPoint) -> (r: EdPoint)
    requires
        ed_on_curve(a@),
        ed_on_curve(b@),
    ensures
        ed_on_curve(r@),
        r@ == ed_add(a@, b@),
{
    let f = |c: &Fr| ark_bn254::Fr::from(BigUint::from(BigInt(c.limbs)));
    let g = |p: &EdPoint| EdwardsAffine { x: f(&p.x), y: f(&p.y) };
    let s = (g(a) + g(b)).into_affine();
    EdPoint { x: Fr { limbs: s.x.into_bigint().0 }, y: Fr { limbs: s.y.into_bigint().0 } }
}

/// `Affine::is_in_correct_subgroup_assuming_on_curve` of
/// `ark_ed_on_bn254::EdwardsAffine`: whether a point of the curve lies in the
/// group of prime order, a function of the coordinates alone.
#[verifier::external_body]
fn ed_subgroup_check(p: &EdPoint) -> (r: bool)
    requires
        ed_on_curve(p@),
    ensures
        r == ed_in_prime_subgroup(p@),
{
    let f = |c: &Fr| ark_bn254::Fr::from(BigUint::from(BigInt(c.limbs)));
    EdwardsAffine { x: f(&p.x), y: f(&p.y) }.is_in_correct_subgroup_assuming_on_curve()
}

/// Multiplication of an `ark_ed_on_bn254::EdwardsAffine` by a scalar
/// (`core::ops::Mul`) followed by `CurveGroup::into_affine`. The multiple of
/// a point of the curve is a point of the curve, and depends on the
/// coordinates and the scalar's residue alone.
#[verifier::external_body]
fn ed_mul_point(p: &EdPoint, s: &EdScalar) -> (r: EdPoint)
    requires
        ed_on_curve(p@),
    ensures
        ed_on_curve(r@),
        r@ == ed_mul(p@, s@),
{
    let f = |c: &Fr| ark_bn254::Fr::from(BigUint::from(BigInt(c.limbs)));
    let g = EdwardsAffine { x: f(&p.x), y: f(&p.y) };
    let m = (g * ArkEdFr::from(BigUint::from(BigInt(s.limbs)))).into_affine();
    EdPoint { x: Fr { limbs: m.x.into_bigint().0 }, y: Fr { limbs: m.y.into_bigint().0 } }
}

/// `UniformRand::rand` of `ark_ed_on_bn254::EdwardsProjective`, then
/// `CurveGroup::into_affine`: a point of the curve drawn from the generator.
#[verifier::external_body]
fn ed_point_rand(rng: &mut StdRng) -> (r: EdPoint)
    ensures
        ed_on_curve(r@),
{
    let p = EdwardsProjective::rand(rng).into_affine();
    EdPoint { x: Fr { limbs: p.x.into_bigint().0 }, y: Fr { limbs: p.y.into_bigint().0 } }
}

/// `UniformRand::rand` of `ark_ed_on_bn254::Fr`, then
/// `PrimeField::into_bigint`: a scalar drawn from the generator, as its
/// least residue.
#[verifier::external_body]
fn ed_scalar_rand(rng: &mut StdRng) -> (r: EdScalar)
    ensures
        r.is_canonical(),
{
    EdScalar { limbs: ArkEdFr::rand(rng).into_bigint().0 }
}

} // verus!

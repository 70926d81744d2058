//! The two prime fields of BN254, held as four little-endian 64-bit limbs.
//!
//! A value of [`Fr`] or [`Fq`] stands for the residue of its limbs modulo the
//! field's order, so every limb pattern is a valid element. Arithmetic is done
//! by `ark-ff`; what it returns is always the least residue.
use ark_ff::{PrimeField, UniformRand};
use rand::rngs::StdRng;
use vstd::prelude::*;

verus! {

/// The random number generator that setup and proving draw from.
#[verifier::external_type_specification]
#[verifier::external_body]
pub struct ExStdRng(StdRng);

/// The order of the BN254 scalar field, which is also the order of `G1`, `G2` and `GT`.
pub open spec fn fr_modulus() -> nat {
    21888242871839275222246405745257275088548364400416034343698204186575808495617nat
}

/// The order of the BN254 base field, in which curve coordinates live.
pub open spec fn fq_modulus() -> nat {
    21888242871839275222246405745257275088696311157297823662689037894645226208583nat
}

/// The sum of two residues of the scalar field.
pub open spec fn fr_sum(a: nat, b: nat) -> nat {
    (a + b) % fr_modulus()
}

/// The difference of two residues of the scalar field.
pub open spec fn fr_difference(a: nat, b: nat) -> nat {
    ((a + fr_modulus() - b) % (fr_modulus() as int)) as nat
}

/// The product of two residues of the scalar field.
pub open spec fn fr_product(a: nat, b: nat) -> nat {
    (a * b) % fr_modulus()
}

/// Bit `i` of an integer, counted from the lowest.
pub open spec fn bit_of(x: nat, i: nat) -> bool {
    (x / vstd::arithmetic::power2::pow2(i)) % 2 == 1
}

/// The inverse of a nonzero residue of the scalar field: the residue whose
/// product with it is one.
pub open spec fn fr_inverse_of(x: nat) -> nat {
    choose|w: nat| is_fr_inverse(x, w)
}

/// Whether `w` is a least residue whose product with `x` is one.
pub open spec fn is_fr_inverse(x: nat, w: nat) -> bool {
    w < fr_modulus() && fr_product(x, w) == 1
}

/// The integer that four little-endian 64-bit limbs stand for.
pub open spec fn limbs_value(l: [u64; 4]) -> nat {
    (l[0] as nat) + (l[1] as nat) * 0x1_0000_0000_0000_0000nat + (l[2] as nat)
        * 0x1_0000_0000_0000_0000_0000_0000_0000_0000nat + (l[3] as nat)
        * 0x1_0000_0000_0000_0000_0000_0000_0000_0000_0000_0000_0000_0000nat
}

/// Two limb arrays that stand for the same integer are the same array.
pub proof fn lemma_limbs_value_injective(a: [u64; 4], b: [u64; 4])
    requires
        limbs_value(a) == limbs_value(b),
    ensures
        a == b,
{
    let lo_a = (a[0] as int) + (a[1] as int) * 0x1_0000_0000_0000_0000;
    let lo_b = (b[0] as int) + (b[1] as int) * 0x1_0000_0000_0000_0000;
    let hi_a = (a[2] as int) + (a[3] as int) * 0x1_0000_0000_0000_0000;
    let hi_b = (b[2] as int) + (b[3] as int) * 0x1_0000_0000_0000_0000;
    assert(limbs_value(a) == lo_a + hi_a * 0x1_0000_0000_0000_0000_0000_0000_0000_0000);
    assert(limbs_value(b) == lo_b + hi_b * 0x1_0000_0000_0000_0000_0000_0000_0000_0000);
    assert(0 <= lo_a < 0x1_0000_0000_0000_0000_0000_0000_0000_0000);
    assert(0 <= lo_b < 0x1_0000_0000_0000_0000_0000_0000_0000_0000);
    assert(hi_a == hi_b);
    assert(lo_a == lo_b);
    assert(a[1] == b[1]);
    assert(a[3] == b[3]);
    assert(a@ =~= b@);
}

/// An element of the BN254 scalar field: the field of circuit values,
/// witnesses and public inputs.
#[derive(Clone, Copy, Debug, PartialEq, Eq)]
pub struct Fr {
    pub limbs: [u64; 4],
}

impl View for Fr {
    type V = nat;

    /// The residue the element stands for, in `0..fr_modulus()`.
    open spec fn view(&self) -> nat {
        limbs_value(self.limbs) % fr_modulus()
    }
}

impl Fr {
    /// Whether the limbs hold the least residue itself.
    pub open spec fn is_canonical(&self) -> bool {
        limbs_value(self.limbs) < fr_modulus()
    }

    /// The additive identity.
    pub fn zero() -> (r: Fr)
        ensures
            r.is_canonical(),
            r@ == 0,
    {
        Fr { limbs: [0, 0, 0, 0] }
    }

    /// The multiplicative identity, as a value of specifications.
    pub open spec fn spec_one() -> Fr {
        Fr { limbs: [1, 0, 0, 0] }
    }

    /// The multiplicative identity.
    pub fn one() -> (r: Fr)
        ensures
            r == Fr::spec_one(),
            r.is_canonical(),
            r@ == 1,
    {
        Fr { limbs: [1, 0, 0, 0] }
    }

    /// The element that stands for a machine integer.
    pub fn from_u64(v: u64) -> (r: Fr)
        ensures
            r.is_canonical(),
            r@ == v,
    {
        Fr { limbs: [v, 0, 0, 0] }
    }

    /// A uniformly random element. Nothing is known of it but that its
    /// limbs hold a least residue.
    pub fn rand(rng: &mut StdRng) -> (r: Fr)
        ensures
            r.is_canonical(),
    {
        fr_rand(rng)
    }

    /// The same element with its limbs brought to the least residue.
    pub fn reduce(&self) -> (r: Fr)
        ensures
            r.is_canonical(),
            r@ == self@,
    {
        fr_reduce(self)
    }

    /// `self + rhs` in the field.
    pub fn add(&self, rhs: &Fr) -> (r: Fr)
        ensures
            r.is_canonical(),
            r@ == fr_sum(self@, rhs@),
    {
        fr_add(self, rhs)
    }

    /// `self - rhs` in the field.
    pub fn sub(&self, rhs: &Fr) -> (r: Fr)
        ensures
            r.is_canonical(),
            r@ == fr_difference(self@, rhs@),
    {
        fr_sub(self, rhs)
    }

    /// `self * rhs` in the field.
    pub fn mul(&self, rhs: &Fr) -> (r: Fr)
        ensures
            r.is_canonical(),
            r@ == fr_product(self@, rhs@),
    {
        fr_mul(self, rhs)
    }

    /// The multiplicative inverse, which exists exactly for the nonzero elements.
    pub fn inverse(&self) -> (r: Option<Fr>)
        ensures
            r.is_none() <==> self@ == 0,
            r matches Some(inv) ==> inv.is_canonical() && inv@ == fr_inverse_of(self@) && (self@
                * inv@) % fr_modulus() == 1,
    {
        fr_inverse(self)
    }

    /// The 256 bits of the residue, the lowest first.
    pub fn to_bits_le(&self) -> (bits: Vec<bool>)
        ensures
            bits.len() == 256,
            forall|i: int| 0 <= i < 256 ==> #[trigger] bits[i] == bit_of(self@, i as nat),
    {
        fr_bits(self)
    }

    /// Zero or one.
    pub fn from_bool(b: bool) -> (r: Fr)
        ensures
            r.is_canonical(),
            r@ == if b {
                1nat
            } else {
                0nat
            },
    {
        if b {
            Fr::one()
        } else {
            Fr::zero()
        }
    }

    /// Whether the element is the additive identity.
    pub fn is_zero(&self) -> (b: bool)
        ensures
            b == (self@ == 0),
    {
        let r = fr_reduce(self);
        r.limbs[0] == 0 && r.limbs[1] == 0 && r.limbs[2] == 0 && r.limbs[3] == 0
    }

    /// Whether two elements are the same residue, whatever limbs hold them.
    pub fn same_value(&self, other: &Fr) -> (b: bool)
        ensures
            b == (self@ == other@),
    {
        let x = fr_reduce(self);
        let y = fr_reduce(other);
        proof {
            if x@ == y@ {
                lemma_limbs_value_injective(x.limbs, y.limbs);
            }
        }
        x.limbs[0] == y.limbs[0] && x.limbs[1] == y.limbs[1] && x.limbs[2] == y.limbs[2]
            && x.limbs[3] == y.limbs[3]
    }
}

/// The residues of a sequence of scalars.
pub open spec fn fr_views(s: Seq<Fr>) -> Seq<nat> {
    Seq::new(s.len(), |i: int| s[i]@)
}

/// Whether every scalar of a sequence holds its least residue.
pub open spec fn all_canonical(s: Seq<Fr>) -> bool {
    forall|i: int| 0 <= i < s.len() ==> (#[trigger] s[i]).is_canonical()
}

/// Append a copy of each element of `src` to `out`.
pub fn append_copy(out: &mut Vec<Fr>, src: &Vec<Fr>)
    ensures
        final(out)@ == old(out)@ + src@,
{
    let mut i: usize = 0;
    while i < src.len()
        invariant
            i <= src.len(),
            out@ == old(out)@ + src@.subrange(0, i as int),
        decreases src.len() - i,
    {
        out.push(src[i]);
        assert(out@ =~= old(out)@ + src@.subrange(0, i + 1));
        i += 1;
    }
    assert(src@.subrange(0, src.len() as int) =~= src@);
}

/// An element of the BN254 base field: one coordinate of a curve point.
#[derive(Clone, Copy, Debug, PartialEq, Eq)]
pub struct Fq {
    pub limbs: [u64; 4],
}

impl View for Fq {
    type V = nat;

    /// The residue the element stands for, in `0..fq_modulus()`.
    open spec fn view(&self) -> nat {
        limbs_value(self.limbs) % fq_modulus()
    }
}

impl Fq {
    /// Whether the limbs hold the least residue itself.
    pub open spec fn is_canonical(&self) -> bool {
        limbs_value(self.limbs) < fq_modulus()
    }

    /// The additive identity.
    pub fn zero() -> (r: Fq)
        ensures
            r.is_canonical(),
            r@ == 0,
    {
        Fq { limbs: [0, 0, 0, 0] }
    }

    /// The element that stands for a machine integer.
    pub fn from_u64(v: u64) -> (r: Fq)
        ensures
            r.is_canonical(),
            r@ == v,
    {
        Fq { limbs: [v, 0, 0, 0] }
    }

    /// The same element with its limbs brought to the least residue.
    pub fn reduce(&self) -> (r: Fq)
        ensures
            r.is_canonical(),
            r@ == self@,
    {
        fq_reduce(self)
    }

    /// `-self` in the field.
    pub fn neg(&self) -> (r: Fq)
        ensures
            r.is_canonical(),
            r@ == (fq_modulus() - self@) % (fq_modulus() as int),
    {
        fq_neg(self)
    }

    /// Whether two elements are the same residue, whatever limbs hold them.
    pub fn same_value(&self, other: &Fq) -> (b: bool)
        ensures
            b == (self@ == other@),
    {
        let x = fq_reduce(self);
        let y = fq_reduce(other);
        proof {
            if x@ == y@ {
                lemma_limbs_value_injective(x.limbs, y.limbs);
            }
        }
        x.limbs[0] == y.limbs[0] && x.limbs[1] == y.limbs[1] && x.limbs[2] == y.limbs[2]
            && x.limbs[3] == y.limbs[3]
    }
}

/// `UniformRand::rand` of `ark_bn254::Fr`, then `PrimeField::into_bigint`:
/// an element drawn from the generator, as its least residue.
#[verifier::external_body]
fn fr_rand(rng: &mut StdRng) -> (r: Fr)
    ensures
        r.is_canonical(),
{
    Fr { limbs: ark_bn254::Fr::rand(rng).into_bigint().0 }
}

/// `PrimeField::into_bigint` of `ark_bn254::Fr`, then
/// `BigInteger::to_bits_le`: the bits of the four limbs of the least
/// residue, the lowest first.
#[verifier::external_body]
fn fr_bits(a: &Fr) -> (bits: Vec<bool>)
    ensures
        bits.len() == 256,
        forall|i: int| 0 <= i < 256 ==> #[trigger] bits[i] == bit_of(a@, i as nat),
{
    let bytes = ark_ff::BigInteger::to_bytes_le(&ark_ff::BigInt::<4>(a.limbs));
    let x = <ark_bn254::Fr as ark_ff::PrimeField>::from_le_bytes_mod_order(&bytes);
    ark_ff::BigInteger::to_bits_le(&x.into_bigint())
}

/// `PrimeField::from_le_bytes_mod_order` followed by `PrimeField::into_bigint`
/// on `ark_bn254::Fr`: the first reduces an integer of any size modulo the
/// field's order, the second hands back the least residue.
#[verifier::external_body]
fn fr_reduce(a: &Fr) -> (r: Fr)
    ensures
        r.is_canonical(),
        r@ == a@,
{
    let bytes = ark_ff::BigInteger::to_bytes_le(&ark_ff::BigInt::<4>(a.limbs));
    let x = <ark_bn254::Fr as ark_ff::PrimeField>::from_le_bytes_mod_order(&bytes);
    Fr { limbs: ark_ff::PrimeField::into_bigint(x).0 }
}

/// `PrimeField::from_le_bytes_mod_order` followed by `PrimeField::into_bigint`
/// on `ark_bn254::Fq`: the least residue of the limbs modulo the base field's
/// order.
#[verifier::external_body]
fn fq_reduce(a: &Fq) -> (r: Fq)
    ensures
        r.is_canonical(),
        r@ == a@,
{
    let bytes = ark_ff::BigInteger::to_bytes_le(&ark_ff::BigInt::<4>(a.limbs));
    let x = <ark_bn254::Fq as ark_ff::PrimeField>::from_le_bytes_mod_order(&bytes);
    Fq { limbs: ark_ff::PrimeField::into_bigint(x).0 }
}

/// Negation of `ark_bn254::Fq` (`core::ops::Neg`): zero for zero, else the
/// order less the residue.
#[verifier::external_body]
fn fq_neg(a: &Fq) -> (r: Fq)
    ensures
        r.is_canonical(),
        r@ == (fq_modulus() - a@) % (fq_modulus() as int),
{
    let bytes = ark_ff::BigInteger::to_bytes_le(&ark_ff::BigInt::<4>(a.limbs));
    let x = <ark_bn254::Fq as ark_ff::PrimeField>::from_le_bytes_mod_order(&bytes);
    Fq { limbs: ark_ff::PrimeField::into_bigint(-x).0 }
}

/// Addition of `ark_bn254::Fr` (`core::ops::Add`): the sum of the two
/// residues, reduced modulo the field's order.
#[verifier::external_body]
fn fr_add(a: &Fr, b: &Fr) -> (r: Fr)
    ensures
        r.is_canonical(),
        r@ == fr_sum(a@, b@),
{
    let x = <ark_bn254::Fr as ark_ff::PrimeField>::from_le_bytes_mod_order(
        &ark_ff::BigInteger::to_bytes_le(&ark_ff::BigInt::<4>(a.limbs)),
    );
    let y = <ark_bn254::Fr as ark_ff::PrimeField>::from_le_bytes_mod_order(
        &ark_ff::BigInteger::to_bytes_le(&ark_ff::BigInt::<4>(b.limbs)),
    );
    Fr { limbs: ark_ff::PrimeField::into_bigint(x + y).0 }
}

/// Subtraction of `ark_bn254::Fr` (`core::ops::Sub`): the difference of the
/// two residues, brought back into `0..fr_modulus()`.
#[verifier::external_body]
fn fr_sub(a: &Fr, b: &Fr) -> (r: Fr)
    ensures
        r.is_canonical(),
        r@ == fr_difference(a@, b@),
{
    let x = <ark_bn254::Fr as ark_ff::PrimeField>::from_le_bytes_mod_order(
        &ark_ff::BigInteger::to_bytes_le(&ark_ff::BigInt::<4>(a.limbs)),
    );
    let y = <ark_bn254::Fr as ark_ff::PrimeField>::from_le_bytes_mod_order(
        &ark_ff::BigInteger::to_bytes_le(&ark_ff::BigInt::<4>(b.limbs)),
    );
    Fr { limbs: ark_ff::PrimeField::into_bigint(x - y).0 }
}

/// Multiplication of `ark_bn254::Fr` (`core::ops::Mul`): the product of the
/// two residues, reduced modulo the field's order.
#[verifier::external_body]
fn fr_mul(a: &Fr, b: &Fr) -> (r: Fr)
    ensures
        r.is_canonical(),
        r@ == fr_product(a@, b@),
{
    let x = <ark_bn254::Fr as ark_ff::PrimeField>::from_le_bytes_mod_order(
        &ark_ff::BigInteger::to_bytes_le(&ark_ff::BigInt::<4>(a.limbs)),
    );
    let y = <ark_bn254::Fr as ark_ff::PrimeField>::from_le_bytes_mod_order(
        &ark_ff::BigInteger::to_bytes_le(&ark_ff::BigInt::<4>(b.limbs)),
    );
    Fr { limbs: ark_ff::PrimeField::into_bigint(x * y).0 }
}

/// `Field::inverse` of `ark_bn254::Fr`: `None` for zero, else the one
/// residue whose product with the argument is one.
#[verifier::external_body]
fn fr_inverse(a: &Fr) -> (r: Option<Fr>)
    ensures
        r.is_none() <==> a@ == 0,
        r matches Some(inv) ==> inv.is_canonical() && inv@ == fr_inverse_of(a@) && (a@ * inv@)
            % fr_modulus() == 1,
{
    let x = <ark_bn254::Fr as ark_ff::PrimeField>::from_le_bytes_mod_order(
        &ark_ff::BigInteger::to_bytes_le(&ark_ff::BigInt::<4>(a.limbs)),
    );
    ark_ff::Field::inverse(&x).map(|v| Fr { limbs: ark_ff::PrimeField::into_bigint(v).0 })
}

} // verus!

//! ElGamal over the twisted Edwards curve: a message is a point, and its
//! ciphertext is the randomness times the generator with the message plus
//! the randomness times the public key.
use crate::edwards::{ed_add, ed_mul, ed_negated, ed_on_curve, EdPoint, EdScalar};
use crate::error::SynthesisError;
use crate::field::limbs_value;
use rand::rngs::StdRng;
use vstd::prelude::*;

verus! {

/// The public parameters: a generator of the group.
#[derive(Clone, Copy, Debug, PartialEq, Eq)]
pub struct Parameters {
    pub generator: EdPoint,
}

/// A public key: the generator times the secret key.
pub type PublicKey = EdPoint;

/// A secret key.
#[derive(Clone, Copy, Debug, PartialEq, Eq)]
pub struct SecretKey(pub EdScalar);

/// The randomness of an encryption.
#[derive(Clone, Copy, Debug, PartialEq, Eq)]
pub struct Randomness(pub EdScalar);

/// A message.
pub type Plaintext = EdPoint;

/// A ciphertext.
pub type Ciphertext = (EdPoint, EdPoint);

impl Randomness {
    /// Uniformly random randomness: a drawn scalar, held as its least
    /// residue.
    pub fn rand(rng: &mut StdRng) -> (r: Randomness)
        ensures
            r.0.is_canonical(),
            r.0@ == limbs_value(r.0.limbs),
    {
        Randomness(EdScalar::rand(rng))
    }
}

/// The ciphertext of the message `m` under the public key `pk` with the
/// randomness `r`: `(r * g, m + r * pk)`.
pub open spec fn elgamal_ciphertext(g: (nat, nat), pk: (nat, nat), m: (nat, nat), r: nat) -> (
    (nat, nat),
    (nat, nat),
) {
    (ed_mul(g, r), ed_add(m, ed_mul(pk, r)))
}

/// The message of a ciphertext under the secret key `sk`: `ct.1 - sk * ct.0`.
pub open spec fn elgamal_plaintext(ct: ((nat, nat), (nat, nat)), sk: nat) -> (nat, nat) {
    ed_add(ct.1, ed_negated(ed_mul(ct.0, sk)))
}

/// The scheme.
pub struct ElGamal {}

impl ElGamal {
    /// Public parameters with a random generator.
    pub fn setup(rng: &mut StdRng) -> (r: Result<Parameters, SynthesisError>)
        ensures
            r matches Ok(pp) && ed_on_curve(pp.generator@),
    {
        Ok(Parameters { generator: EdPoint::rand(rng) })
    }

    /// A random secret key with its public key.
    pub fn keygen(pp: &Parameters, rng: &mut StdRng) -> (r: Result<(PublicKey, SecretKey), SynthesisError>)
        requires
            ed_on_curve(pp.generator@),
        ensures
            r matches Ok(keys) && ed_on_curve(keys.0@) && keys.0@ == ed_mul(
                pp.generator@,
                keys.1.0@,
            ),
    {
        let secret_key = EdScalar::rand(rng);
        let public_key = pp.generator.mul(&secret_key);
        Ok((public_key, SecretKey(secret_key)))
    }

    /// The ciphertext of `message` under `pk` with the randomness `r`.
    pub fn encrypt(pp: &Parameters, pk: &PublicKey, message: &Plaintext, r: &Randomness) -> (ct:
        Result<Ciphertext, SynthesisError>)
        requires
            ed_on_curve(pp.generator@),
            ed_on_curve(pk@),
            ed_on_curve(message@),
        ensures
            ct matches Ok(ct) && ed_on_curve(ct.0@) && ed_on_curve(ct.1@) && (ct.0@, ct.1@)
                == elgamal_ciphertext(pp.generator@, pk@, message@, r.0@),
    {
        let s = pk.mul(&r.0);
        let c1 = pp.generator.mul(&r.0);
        let c2 = message.add(&s);
        Ok((c1, c2))
    }

    /// The message of `ciphertext` under the secret key `sk`.
    pub fn decrypt(pp: &Parameters, sk: &SecretKey, ciphertext: &Ciphertext) -> (m: Result<
        Plaintext,
        SynthesisError,
    >)
        requires
            ed_on_curve(ciphertext.0@),
            ed_on_curve(ciphertext.1@),
        ensures
            m matches Ok(m) && ed_on_curve(m@) && m@ == elgamal_plaintext(
                (ciphertext.0@, ciphertext.1@),
                sk.0@,
            ),
    {
        let s = ciphertext.0.mul(&sk.0);
        let s_inv = s.neg();
        Ok(ciphertext.1.add(&s_inv))
    }
}

} // verus!

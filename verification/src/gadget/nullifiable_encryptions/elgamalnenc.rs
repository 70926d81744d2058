//! ElGamal over the twisted Edwards curve, with a second component under a
//! master key.
//!
//! A public key is made from the master public key with a select bit. With
//! the bit set, the ciphertext opens to the message; without it, the second
//! component carries no message at all.
use crate::edwards::{
    ed_add, ed_mul, ed_negated, ed_on_curve, ed_zero, EdPoint, EdScalar,
};
use crate::error::SynthesisError;
use crate::field::limbs_value;
use crate::gadget::nullifiable_encryptions::NullifiableEncryptionScheme;
use rand::rngs::StdRng;
use vstd::prelude::*;

verus! {

/// The public parameters: a generator of the group.
#[derive(Clone, Copy, Debug, PartialEq, Eq)]
pub struct Parameters {
    pub generator: EdPoint,
}

/// A public key: the generator and the master public key, both times the
/// same secret, the second plus the generator where the select bit is set.
pub type PublicKey = (EdPoint, EdPoint);

/// The master public key: the generator times the master secret key.
pub type MPublicKey = EdPoint;

/// The master secret key.
#[derive(Clone, Copy, Debug, PartialEq, Eq)]
pub struct MSecretKey(pub EdScalar);

/// The bit that says whether a public key is real or nullifies.
#[derive(Clone, Copy, Debug, PartialEq, Eq)]
pub struct SelectBit<Boolean>(pub Boolean);

/// The randomness of a public key or of an encryption.
#[derive(Clone, Copy, Debug, PartialEq, Eq)]
pub struct Randomness(pub EdScalar);

/// A message.
#[derive(Clone, Copy, Debug, PartialEq, Eq)]
pub struct Plaintext(pub EdScalar);

/// A ciphertext, and also what a message is before the randomness is added.
pub type Ciphertext = (EdPoint, EdPoint);

impl Randomness {
    /// Uniformly random randomness: a drawn scalar, held as its least
    /// residue.
    pub fn rand(rng: &mut StdRng) -> (r: Randomness)
        ensures
            r.0.is_canonical(),
            r.0@ == limbs_value(r.0.limbs),
    {
        Randomness(EdScalar::rand(rng))
    }
}

impl Plaintext {
    /// A uniformly random message: a drawn scalar, held as its least
    /// residue.
    pub fn rand(rng: &mut StdRng) -> (r: Plaintext)
        ensures
            r.0.is_canonical(),
            r.0@ == limbs_value(r.0.limbs),
    {
        Plaintext(EdScalar::rand(rng))
    }
}

/// The public key for the master public key `mpk`, the select bit `b` and
/// the secret `x`: `(x * g, x * mpk)`, plus `g` in the second where `b` is
/// set.
pub open spec fn public_key(g: (nat, nat), mpk: (nat, nat), b: bool, x: nat) -> ((nat, nat), (nat, nat)) {
    (
        ed_mul(g, x),
        if b {
            ed_add(ed_mul(mpk, x), g)
        } else {
            ed_mul(mpk, x)
        },
    )
}

/// The message `m` under the public key `pk`, before the randomness:
/// `(m * pk.0, m * pk.1)`.
pub open spec fn pre_ciphertext(pk: ((nat, nat), (nat, nat)), m: nat) -> ((nat, nat), (nat, nat)) {
    (ed_mul(pk.0, m), ed_mul(pk.1, m))
}

/// The ciphertext of a pre-ciphertext with the randomness `r`:
/// `(r * g + pre.0, r * mpk + pre.1)`.
pub open spec fn ciphertext(g: (nat, nat), mpk: (nat, nat), pre: ((nat, nat), (nat, nat)), r: nat) -> (
    (nat, nat),
    (nat, nat),
) {
    (ed_add(ed_mul(g, r), pre.0), ed_add(ed_mul(mpk, r), pre.1))
}

/// What is left of a ciphertext when the master secret key has taken the
/// first component out of the second: `ct.1 - msk * ct.0`.
pub open spec fn unmasked(ct: ((nat, nat), (nat, nat)), msk: nat) -> (nat, nat) {
    ed_add(ct.1, ed_negated(ed_mul(ct.0, msk)))
}

/// Whether the ciphertext `ct` opens to the message `m`: what the master
/// secret key leaves of it is `m * g`, or nothing, as it is under a public
/// key that nullifies.
pub open spec fn opens_to(g: (nat, nat), msk: nat, m: nat, ct: ((nat, nat), (nat, nat))) -> bool {
    unmasked(ct, msk) == ed_mul(g, m) || unmasked(ct, msk) == ed_zero()
}

/// Whether the ciphertext `ct` holds no message up to `n`: `m * g` is not
/// what the master secret key leaves of it, for any `m` below `n`.
pub open spec fn no_message_below(g: (nat, nat), msk: nat, ct: ((nat, nat), (nat, nat)), n: nat) -> bool {
    forall|m: nat| m < n ==> #[trigger] ed_mul(g, m) != unmasked(ct, msk)
}

/// Whether `r` is what decryption answers: zero where the master keys do
/// not belong together, else the least message up to `bound` that the
/// ciphertext holds, or `MessageOutOfRange` where it holds none.
pub open spec fn is_decryption(
    r: Result<Plaintext, SynthesisError>,
    g: (nat, nat),
    mpk: (nat, nat),
    msk: nat,
    ct: ((nat, nat), (nat, nat)),
    bound: nat,
) -> bool {
    if mpk != ed_mul(g, msk) {
        r matches Ok(m) && m.0@ == 0
    } else {
        match r {
            Ok(m) => m.0@ <= bound && ed_mul(g, m.0@) == unmasked(ct, msk) && no_message_below(
                g,
                msk,
                ct,
                m.0@,
            ),
            Err(e) => e == SynthesisError::MessageOutOfRange && no_message_below(
                g,
                msk,
                ct,
                bound + 1,
            ),
        }
    }
}

/// The least `m` up to `bound` with `m * g == target`, if there is one.
fn find_message(g: &EdPoint, target: &EdPoint, bound: u64) -> (r: Option<u64>)
    requires
        ed_on_curve(g@),
    ensures
        r matches Some(m) ==> m <= bound && ed_mul(g@, m as nat) == target@ && forall|k: nat|
            k < m ==> #[trigger] ed_mul(g@, k) != target@,
        r.is_none() ==> forall|k: nat| k < bound + 1 ==> #[trigger] ed_mul(g@, k) != target@,
{
    let mut candidate: u64 = 0;
    loop
        invariant
            ed_on_curve(g@),
            candidate <= bound,
            forall|k: nat| k < candidate ==> #[trigger] ed_mul(g@, k) != target@,
        decreases bound - candidate,
    {
        let m = EdScalar::from_u64(candidate);
        if g.mul(&m).same_value(target) {
            return Some(candidate);
        }
        if candidate == bound {
            return None;
        }
        candidate += 1;
    }
}

/// The scheme.
pub struct ElGamalNEnc {}

impl NullifiableEncryptionScheme for ElGamalNEnc {
    type Parameters = Parameters;

    type MPublicKey = MPublicKey;

    type MSecretKey = MSecretKey;

    type PublicKey = PublicKey;

    type Randomness = Randomness;

    type Plaintext = Plaintext;

    type Ciphertext = Ciphertext;

    type PreCiphertext = Ciphertext;

    open spec fn valid_parameters(pp: &Parameters) -> bool {
        ed_on_curve(pp.generator@)
    }

    open spec fn valid_master_key(mpk: &MPublicKey) -> bool {
        ed_on_curve(mpk@)
    }

    open spec fn valid_public_key(pk: &PublicKey) -> bool {
        ed_on_curve(pk.0@) && ed_on_curve(pk.1@)
    }

    open spec fn valid_pre_ciphertext(pre: &Ciphertext) -> bool {
        ed_on_curve(pre.0@) && ed_on_curve(pre.1@)
    }

    open spec fn valid_ciphertext(ct: &Ciphertext) -> bool {
        ed_on_curve(ct.0@) && ed_on_curve(ct.1@)
    }

    open spec fn is_key_pair(pp: &Parameters, mpk: &MPublicKey, msk: &MSecretKey) -> bool {
        mpk@ == ed_mul(pp.generator@, msk.0@)
    }

    open spec fn is_public_key(pp: &Parameters, mpk: &MPublicKey, b: bool, x: &Randomness, pk: &PublicKey) -> bool {
        (pk.0@, pk.1@) == public_key(pp.generator@, mpk@, b, x.0@)
    }

    open spec fn is_pre_ciphertext(pk: &PublicKey, message: &Plaintext, pre: &Ciphertext) -> bool {
        (pre.0@, pre.1@) == pre_ciphertext((pk.0@, pk.1@), message.0@)
    }

    open spec fn is_ciphertext(
        pp: &Parameters,
        mpk: &MPublicKey,
        pre: &Ciphertext,
        r: &Randomness,
        ct: &Ciphertext,
    ) -> bool {
        (ct.0@, ct.1@) == ciphertext(pp.generator@, mpk@, (pre.0@, pre.1@), r.0@)
    }

    open spec fn is_decryption(
        pp: &Parameters,
        mpk: &MPublicKey,
        msk: &MSecretKey,
        ct: &Ciphertext,
        bound: u64,
        r: Result<Plaintext, SynthesisError>,
    ) -> bool {
        is_decryption(r, pp.generator@, mpk@, msk.0@, (ct.0@, ct.1@), bound as nat)
    }

    open spec fn opens(pp: &Parameters, msk: &MSecretKey, message: &Plaintext, ct: &Ciphertext) -> bool {
        opens_to(pp.generator@, msk.0@, message.0@, (ct.0@, ct.1@))
    }

    /// Public parameters with a random generator.
    fn setup(rng: &mut StdRng) -> (r: Result<Parameters, SynthesisError>) {
        Ok(Parameters { generator: EdPoint::rand(rng) })
    }

    /// A random master secret key with its master public key.
    fn keygen(pp: &Parameters, rng: &mut StdRng) -> (r: Result<
        (MPublicKey, MSecretKey),
        SynthesisError,
    >) {
        let m_secret_key = EdScalar::rand(rng);
        let m_public_key = pp.generator.mul(&m_secret_key);
        Ok((m_public_key, MSecretKey(m_secret_key)))
    }

    /// The public key for the select bit `b` and the secret `x`.
    fn pkgen(pp: &Parameters, mpk: &MPublicKey, b: bool, x: &Randomness) -> (r: Result<
        PublicKey,
        SynthesisError,
    >) {
        let pk0 = pp.generator.mul(&x.0);
        let mut pk1 = mpk.mul(&x.0);
        if b {
            pk1 = pk1.add(&pp.generator);
        }
        Ok((pk0, pk1))
    }

    /// The message under the public key, before the randomness.
    fn preencrypt(pk: &PublicKey, message: &Plaintext) -> (r: Result<Ciphertext, SynthesisError>) {
        let hm = pk.0.mul(&message.0);
        let h_m = pk.1.mul(&message.0);
        Ok((hm, h_m))
    }

    /// The ciphertext of a pre-ciphertext with the randomness `r`.
    fn encrypt(pp: &Parameters, mpk: &MPublicKey, pre_ct: &Ciphertext, r: &Randomness) -> (ct:
        Result<Ciphertext, SynthesisError>) {
        let gr = pp.generator.mul(&r.0);
        let c0 = gr.add(&pre_ct.0);
        let g_r = mpk.mul(&r.0);
        let c1 = g_r.add(&pre_ct.1);
        Ok((c0, c1))
    }

    /// The message of a ciphertext, found by trying the messages from zero
    /// up to `bound`. Where the master keys do not belong together the
    /// answer is zero; where no message up to `bound` fits, it is
    /// `MessageOutOfRange`.
    fn decrypt(pp: &Parameters, mpk: &MPublicKey, msk: &MSecretKey, ct: &Ciphertext, bound: u64) -> (r:
        Result<Plaintext, SynthesisError>) {
        if !mpk.same_value(&pp.generator.mul(&msk.0)) {
            return Ok(Plaintext(EdScalar::from_u64(0)));
        }
        let c0_sk = ct.0.mul(&msk.0);
        let rhs = ct.1.add(&c0_sk.neg());
        match find_message(&pp.generator, &rhs, bound) {
            Some(m) => Ok(Plaintext(EdScalar::from_u64(m))),
            None => Err(SynthesisError::MessageOutOfRange),
        }
    }

    /// Whether the ciphertext opens to the message under the master secret
    /// key.
    fn open(pp: &Parameters, msk: &MSecretKey, message: &Plaintext, ct: &Ciphertext) -> (r:
        Result<bool, SynthesisError>) {
        let lhs = pp.generator.mul(&message.0);
        let c0_sk = ct.0.mul(&msk.0);
        let rhs = ct.1.add(&c0_sk.neg());
        let same = rhs.same_value(&lhs);
        let nothing = rhs.is_zero();
        Ok(same || nothing)
    }
}

} // verus!

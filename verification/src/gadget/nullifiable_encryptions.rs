//! Encryption that the holder of a master key can open, and that a public
//! key made for it can nullify.
use crate::error::SynthesisError;
use rand::rngs::StdRng;
use vstd::prelude::*;

pub mod elgamalnenc;

verus! {

/// An encryption scheme with a master key pair. A public key is derived
/// from the master public key with a select bit; a message is first put
/// under a public key and then, with randomness, under the master public
/// key.
pub trait NullifiableEncryptionScheme {
    type Parameters;

    type MPublicKey;

    type MSecretKey;

    type PublicKey;

    type Randomness;

    type Plaintext;

    type Ciphertext;

    type PreCiphertext;

    /// Whether parameters can be used.
    spec fn valid_parameters(pp: &Self::Parameters) -> bool;

    /// Whether a master public key can be used.
    spec fn valid_master_key(mpk: &Self::MPublicKey) -> bool;

    /// Whether a public key can be used.
    spec fn valid_public_key(pk: &Self::PublicKey) -> bool;

    /// Whether a pre-ciphertext can be used.
    spec fn valid_pre_ciphertext(pre: &Self::PreCiphertext) -> bool;

    /// Whether a ciphertext can be used.
    spec fn valid_ciphertext(ct: &Self::Ciphertext) -> bool;

    /// Whether `mpk` is the master public key of `msk`.
    spec fn is_key_pair(pp: &Self::Parameters, mpk: &Self::MPublicKey, msk: &Self::MSecretKey) -> bool;

    /// Whether `pk` is the public key for the select bit `b` and the secret
    /// `x`.
    spec fn is_public_key(
        pp: &Self::Parameters,
        mpk: &Self::MPublicKey,
        b: bool,
        x: &Self::Randomness,
        pk: &Self::PublicKey,
    ) -> bool;

    /// Whether `pre` is the message under the public key, before the
    /// randomness.
    spec fn is_pre_ciphertext(pk: &Self::PublicKey, message: &Self::Plaintext, pre: &Self::PreCiphertext) -> bool;

    /// Whether `ct` is the ciphertext of `pre` with the randomness `r`.
    spec fn is_ciphertext(
        pp: &Self::Parameters,
        mpk: &Self::MPublicKey,
        pre: &Self::PreCiphertext,
        r: &Self::Randomness,
        ct: &Self::Ciphertext,
    ) -> bool;

    /// Whether `r` is what decryption answers when it tries the messages up
    /// to `bound`.
    spec fn is_decryption(
        pp: &Self::Parameters,
        mpk: &Self::MPublicKey,
        msk: &Self::MSecretKey,
        ct: &Self::Ciphertext,
        bound: u64,
        r: Result<Self::Plaintext, SynthesisError>,
    ) -> bool;

    /// Whether the ciphertext opens to the message under the master secret
    /// key.
    spec fn opens(
        pp: &Self::Parameters,
        msk: &Self::MSecretKey,
        message: &Self::Plaintext,
        ct: &Self::Ciphertext,
    ) -> bool;

    /// Public parameters.
    fn setup(rng: &mut StdRng) -> (r: Result<Self::Parameters, SynthesisError>)
        ensures
            r matches Ok(pp) && Self::valid_parameters(&pp),
    ;

    /// A random master secret key with its master public key.
    fn keygen(pp: &Self::Parameters, rng: &mut StdRng) -> (r: Result<
        (Self::MPublicKey, Self::MSecretKey),
        SynthesisError,
    >)
        requires
            Self::valid_parameters(pp),
        ensures
            r matches Ok(keys) && Self::valid_master_key(&keys.0) && Self::is_key_pair(
                pp,
                &keys.0,
                &keys.1,
            ),
    ;

    /// The public key for the select bit `b` and the secret `x`.
    fn pkgen(pp: &Self::Parameters, mpk: &Self::MPublicKey, b: bool, x: &Self::Randomness) -> (r:
        Result<Self::PublicKey, SynthesisError>)
        requires
            Self::valid_parameters(pp),
            Self::valid_master_key(mpk),
        ensures
            r matches Ok(pk) && Self::valid_public_key(&pk) && Self::is_public_key(
                pp,
                mpk,
                b,
                x,
                &pk,
            ),
    ;

    /// The message under the public key, before the randomness.
    fn preencrypt(pk: &Self::PublicKey, message: &Self::Plaintext) -> (r: Result<
        Self::PreCiphertext,
        SynthesisError,
    >)
        requires
            Self::valid_public_key(pk),
        ensures
            r matches Ok(pre) && Self::valid_pre_ciphertext(&pre) && Self::is_pre_ciphertext(
                pk,
                message,
                &pre,
            ),
    ;

    /// The ciphertext of a pre-ciphertext with the randomness `r`.
    fn encrypt(
        pp: &Self::Parameters,
        mpk: &Self::MPublicKey,
        pre_ct: &Self::PreCiphertext,
        r: &Self::Randomness,
    ) -> (ct: Result<Self::Ciphertext, SynthesisError>)
        requires
            Self::valid_parameters(pp),
            Self::valid_master_key(mpk),
            Self::valid_pre_ciphertext(pre_ct),
        ensures
            ct matches Ok(ct) && Self::valid_ciphertext(&ct) && Self::is_ciphertext(
                pp,
                mpk,
                pre_ct,
                r,
                &ct,
            ),
    ;

    /// The message of a ciphertext, found by trying the messages from zero
    /// up to `bound`.
    fn decrypt(
        pp: &Self::Parameters,
        mpk: &Self::MPublicKey,
        msk: &Self::MSecretKey,
        ct: &Self::Ciphertext,
        bound: u64,
    ) -> (r: Result<Self::Plaintext, SynthesisError>)
        requires
            Self::valid_parameters(pp),
            Self::valid_ciphertext(ct),
        ensures
            Self::is_decryption(pp, mpk, msk, ct, bound, r),
    ;

    /// Whether the ciphertext opens to the message under the master secret
    /// key.
    fn open(pp: &Self::Parameters, msk: &Self::MSecretKey, message: &Self::Plaintext, ct: &Self::Ciphertext) -> (r:
        Result<bool, SynthesisError>)
        requires
            Self::valid_parameters(pp),
            Self::valid_ciphertext(ct),
        ensures
            r matches Ok(ok) && ok == Self::opens(pp, msk, message, ct),
    ;
}

} // verus!

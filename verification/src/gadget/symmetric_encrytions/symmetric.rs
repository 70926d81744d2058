//! A one-time pad over the scalar field whose pad is the hash of the key
//! and a nonce.
use crate::error::SynthesisError;
use crate::field::{fr_difference, fr_modulus, fr_sum, Fr};
use crate::gadget::hashes::mimc7::{mimc_compress, mimc_hash, MiMC, Parameters};
use crate::gadget::hashes::{CRHScheme, TwoToOneCRHScheme};
use vstd::prelude::*;

verus! {

/// The nonce of one encryption.
#[derive(Clone, Copy, Debug, PartialEq, Eq)]
pub struct Randomness {
    pub r: Fr,
}

/// The key.
#[derive(Clone, Copy, Debug, PartialEq, Eq)]
pub struct SymmetricKey {
    pub k: Fr,
}

/// A ciphertext: the nonce and the padded message.
#[derive(Clone, Copy, Debug, PartialEq, Eq)]
pub struct Ciphertext {
    pub r: Fr,
    pub c: Fr,
}

/// A message.
#[derive(Clone, Copy, Debug, PartialEq, Eq)]
pub struct Plaintext {
    pub m: Fr,
}

/// The pad of the key `k` and the nonce `r`: the hash of the two.
pub open spec fn pad(rc: Seq<nat>, k: nat, r: nat) -> nat {
    mimc_hash(rc, seq![k, r])
}

/// The padded message of `m` under the key `k` with the nonce `r`.
pub open spec fn sym_encrypt(rc: Seq<nat>, k: nat, r: nat, m: nat) -> nat {
    fr_sum(pad(rc, k, r), m)
}

/// The message of the padded message `c` under the key `k` with the nonce
/// `r`.
pub open spec fn sym_decrypt(rc: Seq<nat>, k: nat, r: nat, c: nat) -> nat {
    fr_difference(c, pad(rc, k, r))
}

/// The scheme.
pub struct SymmetricEncryptionScheme {}

impl SymmetricEncryptionScheme {
    /// Encrypt `m` under the key `k` with the nonce `r`: the message plus
    /// the pad.
    pub fn encrypt(params: &Parameters, r: Randomness, k: SymmetricKey, m: Plaintext) -> (ct: Result<
        Ciphertext,
        SynthesisError,
    >)
        ensures
            ct matches Ok(ct) && ct.r == r.r && ct.c.is_canonical() && ct.c@ == sym_encrypt(
                params@,
                k.k@,
                r.r@,
                m.m@,
            ),
    {
        let input: [Fr; 2] = [k.k, r.r];
        assert(crate::field::fr_views(input@) =~= seq![k.k@, r.r@]);
        let h = match MiMC::evaluate(params, &input) {
            Ok(h) => h,
            Err(e) => {
                return Err(e);
            },
        };
        Ok(Ciphertext { r: r.r, c: h.add(&m.m) })
    }

    /// Decrypt `ct` under the key `k`: the padded message less the pad.
    pub fn decrypt(params: &Parameters, k: SymmetricKey, ct: Ciphertext) -> (m: Result<
        Plaintext,
        SynthesisError,
    >)
        ensures
            m matches Ok(m) && m.m.is_canonical() && m.m@ == sym_decrypt(
                params@,
                k.k@,
                ct.r@,
                ct.c@,
            ),
    {
        let input: [Fr; 2] = [k.k, ct.r];
        assert(crate::field::fr_views(input@) =~= seq![k.k@, ct.r@]);
        let h = match MiMC::evaluate(params, &input) {
            Ok(h) => h,
            Err(e) => {
                return Err(e);
            },
        };
        Ok(Plaintext { m: ct.c.sub(&h) })
    }
}

/// Decrypting what was encrypted under the same key gives the message back.
pub proof fn lemma_decrypt_encrypt(rc: Seq<nat>, k: nat, r: nat, m: nat)
    requires
        m < fr_modulus(),
    ensures
        sym_decrypt(rc, k, r, sym_encrypt(rc, k, r, m)) == m,
{
    let p = fr_modulus() as int;
    let h = pad(rc, k, r) as int;
    let c = fr_sum(h as nat, m) as int;
    assert(0 <= h < p) by {
        reveal_with_fuel(crate::gadget::hashes::mimc7::mimc_absorb, 3);
    }
    assert(c == h + m || c == h + m - p);
    if c == h + m {
        assert((c + p - h) % p == m) by {
            vstd::arithmetic::div_mod::lemma_mod_multiples_vanish(1, m as int, p);
            vstd::arithmetic::div_mod::lemma_small_mod(m, p as nat);
        }
    } else {
        assert((c + p - h) % p == m) by {
            vstd::arithmetic::div_mod::lemma_small_mod(m, p as nat);
        }
    }
}

} // verus!

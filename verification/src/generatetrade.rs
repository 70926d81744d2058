//! The statement that generates a trade.
//!
//! A consumer orders data from a peer. The order is committed to, its parts
//! are encrypted under a key that is itself encrypted to the peer, and the
//! fee is the difference of the consumer's encrypted balance before and
//! after.
use crate::edwards::{ed_on_curve, EdPoint};
use crate::error::SynthesisError;
use crate::field::{fr_difference, fr_sum, fr_views, Fr};
use crate::gadget::hashes::mimc7::{mimc_hash, MiMC, Parameters};
use crate::gadget::public_encryptions::elgamal::{self, elgamal_ciphertext, ElGamal};
use crate::gadget::symmetric_encrytions::symmetric::{
    lemma_decrypt_encrypt, sym_decrypt, sym_encrypt, Plaintext, Randomness,
    SymmetricEncryptionScheme, SymmetricKey,
};
use crate::registerdata::MockingCircuit;
use rand::rngs::StdRng;
use crate::gadget::hashes::{CRHScheme, TwoToOneCRHScheme};
use vstd::prelude::*;

verus! {

/// The values of one trade. A value that is `None` has not been assigned,
/// as none is during setup.
#[allow(non_camel_case_types)]
#[allow(non_snake_case)]
#[derive(Clone, Debug, PartialEq, Eq)]
pub struct generatetradeCircuit {
    pub rc: Parameters,
    pub G: elgamal::Parameters,
    pub cm: Option<Fr>,
    pub G_r: Option<EdPoint>,
    pub c1: Option<EdPoint>,
    pub CT_ord: Option<Vec<Fr>>,
    pub ENA_before: Option<Vec<Fr>>,
    pub ENA_after: Option<Vec<Fr>>,
    pub r: Option<Fr>,
    pub h_k: Option<Fr>,
    pub ENA_writer: Option<Fr>,
    pub pk_cons: Option<EdPoint>,
    pub pk_peer: Option<EdPoint>,
    pub k_ENA: Option<SymmetricKey>,
    pub fee: Option<Fr>,
    pub CT_ord_key: Option<EdPoint>,
    pub CT_ord_key_x: Option<SymmetricKey>,
    pub CT_r: Option<elgamal::Randomness>,
}

/// The balance that an encrypted account holds under the key `k`: its fourth
/// element, decrypted with the account's nonce plus two.
pub open spec fn account_balance(rc: Seq<nat>, k: nat, account: Seq<nat>) -> nat {
    sym_decrypt(rc, k, fr_sum(fr_sum(account[0], 1), 1), account[3])
}

/// An account with the nonce `nonce` that holds the token's address and
/// identifier, both one, and the balance `balance`, encrypted under `k`.
fn encrypt_account(rc: &Parameters, k: SymmetricKey, nonce: &Fr, balance: &Fr) -> (r: Result<
    Vec<Fr>,
    SynthesisError,
>)
    requires
        balance.is_canonical(),
    ensures
        r matches Ok(account) && account.len() == 4 && account_balance(
            rc@,
            k.k@,
            fr_views(account@),
        ) == balance@,
{
    let one = Fr::one();
    let nonce0 = Randomness { r: *nonce };
    let nonce1 = Randomness { r: nonce.add(&one) };
    let nonce2 = Randomness { r: nonce.add(&one).add(&one) };
    let token_address = SymmetricEncryptionScheme::encrypt(rc, nonce0, k, Plaintext { m: one })?;
    let token_id = SymmetricEncryptionScheme::encrypt(rc, nonce1, k, Plaintext { m: one })?;
    let value = SymmetricEncryptionScheme::encrypt(rc, nonce2, k, Plaintext { m: *balance })?;
    let account: Vec<Fr> = vec![nonce0.r, token_address.c, token_id.c, value.c];
    proof {
        lemma_decrypt_encrypt(rc@, k.k@, nonce2.r@, balance@);
        assert(fr_views(account@)[0] == nonce@);
        assert(fr_views(account@)[3] == value.c@);
    }
    Ok(account)
}

/// The five parts of an order, the `i`-th encrypted under `key` with the
/// nonce `i`.
fn encrypt_order(rc: &Parameters, key: SymmetricKey, order: &[Fr; 5]) -> (r: Result<
    Vec<Fr>,
    SynthesisError,
>)
    ensures
        r matches Ok(ct) && ct.len() == 5 && forall|j: int|
            0 <= j < 5 ==> (#[trigger] ct[j])@ == sym_encrypt(rc@, key.k@, j as nat, order[j]@),
{
    let mut ct_ord: Vec<Fr> = Vec::new();
    let mut i: usize = 0;
    while i < 5
        invariant
            i <= 5,
            ct_ord.len() == i,
            forall|j: int|
                0 <= j < i ==> (#[trigger] ct_ord[j])@ == sym_encrypt(
                    rc@,
                    key.k@,
                    j as nat,
                    order[j]@,
                ),
        decreases 5 - i,
    {
        let random = Randomness { r: Fr::from_u64(i as u64) };
        let c = SymmetricEncryptionScheme::encrypt(rc, random, key, Plaintext { m: order[i] })?;
        ct_ord.push(c.c);
        i += 1;
    }
    Ok(ct_ord)
}

impl generatetradeCircuit {
    /// Whether every value is assigned, with as many elements as the
    /// statement reads.
    pub open spec fn assigned(&self) -> bool {
        &&& self.cm.is_some()
        &&& self.G_r.is_some()
        &&& self.c1.is_some()
        &&& self.CT_ord matches Some(v) && v.len() >= 5
        &&& self.ENA_before matches Some(v) && v.len() >= 4
        &&& self.ENA_after matches Some(v) && v.len() >= 4
        &&& self.r.is_some()
        &&& self.h_k.is_some()
        &&& self.ENA_writer.is_some()
        &&& self.pk_cons.is_some()
        &&& self.pk_peer.is_some()
        &&& self.k_ENA.is_some()
        &&& self.fee.is_some()
        &&& self.CT_ord_key.is_some()
        &&& self.CT_ord_key_x.is_some()
        &&& self.CT_r.is_some()
    }

    /// What the order's ciphertexts encrypt, in their order: the consumer's
    /// key, the opening of the commitment, the fee and the hash of the key.
    pub open spec fn order(&self) -> Seq<nat> {
        seq![
            self.pk_cons.unwrap().x@,
            self.pk_cons.unwrap().y@,
            self.r.unwrap()@,
            self.fee.unwrap()@,
            self.h_k.unwrap()@,
        ]
    }

    /// The balance that an encrypted account holds: its fourth element,
    /// decrypted with the account's nonce plus two.
    pub open spec fn balance(&self, account: Seq<nat>) -> nat {
        account_balance(self.rc@, self.k_ENA.unwrap().k@, account)
    }

    /// Whether assigned values make the statement true:
    /// the fee is the balance before less the balance after; the commitment
    /// is the hash of the writer, the opening, the fee, the hash of the key
    /// and the consumer's key; the order's key is the first coordinate of
    /// the point that is encrypted to the peer; and the order's ciphertexts
    /// encrypt the order under that key, the `i`-th with the nonce `i`.
    pub open spec fn satisfied(&self) -> bool {
        let rc = self.rc@;
        let key = self.CT_ord_key_x.unwrap().k@;
        &&& self.fee.unwrap()@ == fr_difference(
            self.balance(fr_views(self.ENA_before.unwrap()@)),
            self.balance(fr_views(self.ENA_after.unwrap()@)),
        )
        &&& self.cm.unwrap()@ == mimc_hash(
            rc,
            seq![
                self.ENA_writer.unwrap()@,
                self.r.unwrap()@,
                self.fee.unwrap()@,
                self.h_k.unwrap()@,
                self.pk_cons.unwrap().x@,
            ],
        )
        &&& self.CT_ord_key.unwrap().x@ == key
        &&& (self.G_r.unwrap()@, self.c1.unwrap()@) == elgamal_ciphertext(
            self.G.generator@,
            self.pk_peer.unwrap()@,
            self.CT_ord_key.unwrap()@,
            self.CT_r.unwrap().0@,
        )
        &&& forall|i: int|
            0 <= i < 5 ==> (#[trigger] self.CT_ord.unwrap()[i])@ == sym_encrypt(
                rc,
                key,
                i as nat,
                self.order()[i],
            )
    }

}

impl MockingCircuit for generatetradeCircuit {
    type HashParam = Parameters;

    type Output = generatetradeCircuit;

    open spec fn is_mock(c: &generatetradeCircuit) -> bool {
        c.assigned() && c.satisfied()
    }

    /// A trade with random keys: a consumer with a balance of two pays a fee
    /// of one.
    #[verifier::rlimit(80)]
    fn generate_circuit(round_constants: Parameters, rng: &mut StdRng) -> (r: Result<
        generatetradeCircuit,
        SynthesisError,
    >) {
        let rc = round_constants;
        let elgamal_param = elgamal::Parameters { generator: EdPoint::generator() };

        let sk = Fr::rand(rng);
        let cin_r = Fr::rand(rng);
        let k_ena = SymmetricKey { k: sk };
        let v_ena_old = Fr::one().add(&Fr::one());
        let v_ena_new = Fr::one();
        let ena_before = encrypt_account(&rc, k_ena, &cin_r, &v_ena_old)?;
        let ena_after = encrypt_account(&rc, k_ena, &cin_r, &v_ena_new)?;

        let fee = Fr::one();
        let ena_writer = Fr::one();
        let r = Fr::one();
        let h_k = Fr::one();
        let (pk_cons, _) = ElGamal::keygen(&elgamal_param, rng)?;
        let (pk_peer, _) = ElGamal::keygen(&elgamal_param, rng)?;

        let cm_input: [Fr; 5] = [ena_writer, r, fee, h_k, pk_cons.x];
        assert(fr_views(cm_input@) =~= seq![ena_writer@, r@, fee@, h_k@, pk_cons.x@]);
        let cm = MiMC::evaluate(&rc, &cm_input)?;

        let ct_ord_key = EdPoint::rand(rng);
        let ct_ord_key_x = SymmetricKey { k: ct_ord_key.x };
        let ct_r = elgamal::Randomness::rand(rng);
        let (g_r, c1) = ElGamal::encrypt(&elgamal_param, &pk_peer, &ct_ord_key, &ct_r)?;

        let order: [Fr; 5] = [pk_cons.x, pk_cons.y, r, fee, h_k];
        let ct_ord = encrypt_order(&rc, ct_ord_key_x, &order)?;

        let circuit = generatetradeCircuit {
            rc,
            G: elgamal_param,
            cm: Some(cm),
            G_r: Some(g_r),
            c1: Some(c1),
            CT_ord: Some(ct_ord),
            ENA_before: Some(ena_before),
            ENA_after: Some(ena_after),
            r: Some(r),
            h_k: Some(h_k),
            ENA_writer: Some(ena_writer),
            pk_cons: Some(pk_cons),
            pk_peer: Some(pk_peer),
            k_ENA: Some(k_ena),
            fee: Some(fee),
            CT_ord_key: Some(ct_ord_key),
            CT_ord_key_x: Some(ct_ord_key_x),
            CT_r: Some(ct_r),
        };
        proof {
            assert(circuit.balance(fr_views(circuit.ENA_before.unwrap()@)) == 2);
            assert(circuit.balance(fr_views(circuit.ENA_after.unwrap()@)) == 1);
            assert(circuit.order() =~= seq![pk_cons.x@, pk_cons.y@, r@, fee@, h_k@]);
            assert forall|i: int| 0 <= i < 5 implies (#[trigger] circuit.CT_ord.unwrap()[i])@
                == sym_encrypt(circuit.rc@, ct_ord_key_x.k@, i as nat, circuit.order()[i]) by {
                assert(order[i]@ == circuit.order()[i]);
            }
        }
        Ok(circuit)
    }
}

} // verus!

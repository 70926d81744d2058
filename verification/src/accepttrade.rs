//! The statement that accepts a trade.
//!
//! A seller hands the key of the data to the buyer: the key is encrypted
//! under a point that is itself encrypted to the buyer, the trade's
//! commitment is a leaf of the tree of trades, and a nullifier marks the
//! commitment as spent.
use crate::edwards::EdPoint;
use crate::error::SynthesisError;
use crate::field::{fr_views, Fr};
use crate::gadget::hashes::mimc7::{mimc_hash, MiMC, Parameters};
use crate::gadget::merkle_tree::mocking::{
    get_mocking_merkle_tree, test_root, MockingMerkleTree, Path,
};
use crate::gadget::public_encryptions::elgamal::{self, elgamal_ciphertext, ElGamal};
use crate::gadget::symmetric_encrytions::symmetric::{
    sym_encrypt, Plaintext, Randomness, SymmetricEncryptionScheme, SymmetricKey,
};
use rand::rngs::StdRng;
use crate::gadget::hashes::{CRHScheme, TwoToOneCRHScheme};
use vstd::prelude::*;

verus! {

/// The values of one accepted trade. A value that is `None` has not been
/// assigned, as none is during setup.
#[allow(non_snake_case)]
#[derive(Clone, Debug, PartialEq, Eq)]
pub struct AcceptTradeCircuit {
    pub rc: Parameters,
    pub G: elgamal::Parameters,
    pub rt: Option<Fr>,
    pub nf: Option<Fr>,
    pub cmAzeroth: Option<Fr>,
    pub hk: Option<Fr>,
    pub addrseller: Option<Fr>,
    pub G_r: Option<EdPoint>,
    pub c1: Option<EdPoint>,
    pub CT_k: Option<Vec<Fr>>,
    pub cm: Option<Fr>,
    pub leaf_pos: Option<u32>,
    pub tree_proof: Option<Path>,
    pub skseller: Option<Fr>,
    pub k_data: Option<SymmetricKey>,
    pub pkbuyer: Option<EdPoint>,
    pub r: Option<Fr>,
    pub fee: Option<Fr>,
    pub oazeroth: Option<Fr>,
    pub CT_k_key: Option<EdPoint>,
    pub CT_k_x: Option<SymmetricKey>,
    pub CT_k_r: Option<elgamal::Randomness>,
    pub tk_addr: Option<Fr>,
    pub tk_id: Option<Fr>,
}

/// A statement that can make up values for itself, for a tree of a given
/// height.
pub trait MockingCircuit {
    type HashParam;

    type Output;

    /// Whether values are what the statement makes up: all assigned, and
    /// making the statement true.
    spec fn is_mock(c: &Self::Output) -> bool;

    /// Values for the statement, drawn from `rng`.
    fn generate_circuit(round_constants: Self::HashParam, tree_height: u64, rng: &mut StdRng) -> (r:
        Result<Self::Output, SynthesisError>)
        requires
            2 <= tree_height <= usize::MAX,
        ensures
            r matches Ok(c) && Self::is_mock(&c),
    ;
}

impl AcceptTradeCircuit {
    /// Whether every value is assigned.
    pub open spec fn assigned(&self) -> bool {
        &&& self.rt.is_some()
        &&& self.nf.is_some()
        &&& self.cmAzeroth.is_some()
        &&& self.hk.is_some()
        &&& self.addrseller.is_some()
        &&& self.G_r.is_some()
        &&& self.c1.is_some()
        &&& self.CT_k matches Some(v) && v.len() >= 1
        &&& self.cm.is_some()
        &&& self.leaf_pos.is_some()
        &&& self.tree_proof.is_some()
        &&& self.skseller.is_some()
        &&& self.k_data.is_some()
        &&& self.pkbuyer.is_some()
        &&& self.r.is_some()
        &&& self.fee.is_some()
        &&& self.oazeroth.is_some()
        &&& self.CT_k_key.is_some()
        &&& self.CT_k_x.is_some()
        &&& self.CT_k_r.is_some()
        &&& self.tk_addr.is_some()
        &&& self.tk_id.is_some()
    }

    /// The path of the trade's commitment: the siblings of `tree_proof` at
    /// the position `leaf_pos`.
    pub open spec fn path(&self) -> Path {
        Path {
            leaf_sibling_hash: self.tree_proof.unwrap().leaf_sibling_hash,
            auth_path: self.tree_proof.unwrap().auth_path,
            leaf_index: self.leaf_pos.unwrap() as usize,
        }
    }

    /// Whether assigned values make the statement true: the point is
    /// encrypted to the buyer; the data's key is encrypted under the point's
    /// key with the nonce zero; `hk` is the hash of the seller's secret and
    /// the data's key; the commitment is the hash of the seller's address,
    /// the opening, the fee, `hk` and the buyer's key; the payment's
    /// commitment is the hash of its opening, the token, the fee and the
    /// seller's address; the commitment has the root `rt` under its path;
    /// and the nullifier is the hash of the seller's secret and the
    /// commitment.
    pub open spec fn satisfied(&self) -> bool {
        let rc = self.rc@;
        &&& (self.G_r.unwrap()@, self.c1.unwrap()@) == elgamal_ciphertext(
            self.G.generator@,
            self.pkbuyer.unwrap()@,
            self.CT_k_key.unwrap()@,
            self.CT_k_r.unwrap().0@,
        )
        &&& self.CT_k.unwrap()[0]@ == sym_encrypt(
            rc,
            self.CT_k_x.unwrap().k@,
            0,
            self.k_data.unwrap().k@,
        )
        &&& self.hk.unwrap()@ == mimc_hash(
            rc,
            seq![self.skseller.unwrap()@, self.k_data.unwrap().k@],
        )
        &&& self.cm.unwrap()@ == mimc_hash(
            rc,
            seq![
                self.addrseller.unwrap()@,
                self.r.unwrap()@,
                self.fee.unwrap()@,
                self.hk.unwrap()@,
                self.pkbuyer.unwrap().x@,
            ],
        )
        &&& self.cmAzeroth.unwrap()@ == mimc_hash(
            rc,
            seq![
                self.oazeroth.unwrap()@,
                self.tk_addr.unwrap()@,
                self.tk_id.unwrap()@,
                self.fee.unwrap()@,
                self.addrseller.unwrap()@,
            ],
        )
        &&& self.rt.unwrap()@ == test_root(rc, rc, self.path(), seq![self.cm.unwrap()@])
        &&& self.nf.unwrap()@ == mimc_hash(rc, seq![self.skseller.unwrap()@, self.cm.unwrap()@])
    }

}

impl MockingCircuit for AcceptTradeCircuit {
    type HashParam = Parameters;

    type Output = AcceptTradeCircuit;

    open spec fn is_mock(c: &AcceptTradeCircuit) -> bool {
        c.assigned() && c.satisfied()
    }

    /// An accepted trade with random keys, whose commitment is the first
    /// leaf of a tree of height `tree_height` that is empty otherwise.
    fn generate_circuit(round_constants: Parameters, tree_height: u64, rng: &mut StdRng) -> (r:
        Result<AcceptTradeCircuit, SynthesisError>) {
        let rc = round_constants;
        let elgamal_param = elgamal::Parameters { generator: EdPoint::generator() };

        let sk = Fr::rand(rng);
        let k_data = SymmetricKey { k: sk };
        let skseller = Fr::rand(rng);
        let hk_input: [Fr; 2] = [skseller, k_data.k];
        assert(fr_views(hk_input@) =~= seq![skseller@, k_data.k@]);
        let hk = MiMC::evaluate(&rc, &hk_input)?;

        let r = Fr::one();
        let fee = Fr::one();
        let (pkbuyer, _) = ElGamal::keygen(&elgamal_param, rng)?;
        let addrseller = Fr::one();
        let cm_input: [Fr; 5] = [addrseller, r, fee, hk, pkbuyer.x];
        assert(fr_views(cm_input@) =~= seq![addrseller@, r@, fee@, hk@, pkbuyer.x@]);
        let cm = MiMC::evaluate(&rc, &cm_input)?;

        let oazeroth = Fr::rand(rng);
        let tk_addr = Fr::one();
        let tk_id = Fr::one();
        let payment_input: [Fr; 5] = [oazeroth, tk_addr, tk_id, fee, addrseller];
        assert(fr_views(payment_input@) =~= seq![oazeroth@, tk_addr@, tk_id@, fee@, addrseller@]);
        let cm_azeroth = MiMC::evaluate(&rc, &payment_input)?;

        let nf_input: [Fr; 2] = [skseller, cm];
        assert(fr_views(nf_input@) =~= seq![skseller@, cm@]);
        let nf = MiMC::evaluate(&rc, &nf_input)?;

        let ct_k_key = EdPoint::rand(rng);
        let ct_k_x = SymmetricKey { k: ct_k_key.x };
        let random = elgamal::Randomness::rand(rng);
        let (g_r, c1) = ElGamal::encrypt(&elgamal_param, &pkbuyer, &ct_k_key, &random)?;

        let c = SymmetricEncryptionScheme::encrypt(
            &rc,
            Randomness { r: Fr::from_u64(0) },
            ct_k_x,
            Plaintext { m: k_data.k },
        )?;
        let ct_k: Vec<Fr> = vec![c.c];

        let tree_proof = get_mocking_merkle_tree(tree_height);
        let leaf: [Fr; 1] = [cm];
        assert(fr_views(leaf@) =~= seq![cm@]);
        let rt = tree_proof.get_test_root(&rc, &rc, &leaf)?;

        let circuit = AcceptTradeCircuit {
            rc,
            G: elgamal_param,
            rt: Some(rt),
            nf: Some(nf),
            cmAzeroth: Some(cm_azeroth),
            hk: Some(hk),
            addrseller: Some(addrseller),
            G_r: Some(g_r),
            c1: Some(c1),
            CT_k: Some(ct_k),
            cm: Some(cm),
            leaf_pos: Some(0),
            tree_proof: Some(tree_proof),
            skseller: Some(skseller),
            k_data: Some(k_data),
            pkbuyer: Some(pkbuyer),
            r: Some(r),
            fee: Some(fee),
            oazeroth: Some(oazeroth),
            CT_k_key: Some(ct_k_key),
            CT_k_x: Some(ct_k_x),
            CT_k_r: Some(random),
            tk_addr: Some(tk_addr),
            tk_id: Some(tk_id),
        };
        assert(circuit.path() == tree_proof);
        Ok(circuit)
    }
}

} // verus!

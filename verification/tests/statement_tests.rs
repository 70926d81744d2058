use cc_snark::accepttrade::{AcceptTradeCircuit, MockingCircuit as TreeMockingCircuit};
use cc_snark::api::generatetrade::structure::constants::get_constants_generatetrade;
use cc_snark::api::generatetrade::structure::inputs::{to_affine, generatetradeCircuitInputs};
use cc_snark::api::generatetrade::structure::statement::generatetradeCircuitStatement;
use cc_snark::api::generatetrade::structure::witnesses::generatetradeCircuitWitnesses;
use cc_snark::edwards::{EdPoint, EdScalar};
use cc_snark::error::SynthesisError;
use cc_snark::field::Fr;
use cc_snark::gadget::hashes::mimc7::parameters::get_bn256_round_constants;
use cc_snark::gadget::hashes::{CRHScheme, TwoToOneCRHScheme};
use cc_snark::gadget::hashes::mimc7::{MiMC, Parameters};
use cc_snark::gadget::public_encryptions::elgamal::{
    ElGamal, Parameters as ElGamalParameters, Randomness as ElGamalRandomness, SecretKey,
};
use cc_snark::gadget::symmetric_encrytions::symmetric::{
    Ciphertext, Plaintext, Randomness, SymmetricEncryptionScheme,
};
use cc_snark::generatetrade::generatetradeCircuit;
use cc_snark::gadget::merkle_tree::mocking::MockingMerkleTree;
use cc_snark::registerdata::{Data_size, Matrix, MockingCircuit, RegisterdataCircuit};
use rand::rngs::StdRng;
use rand::SeedableRng;

fn params() -> Parameters {
    Parameters { round_constants: get_bn256_round_constants() }
}

#[test]
fn elgamal_decrypts_what_it_encrypts() {
    let mut rng = StdRng::seed_from_u64(9);
    let pp = ElGamal::setup(&mut rng).unwrap();
    let (pk, sk) = ElGamal::keygen(&pp, &mut rng).unwrap();
    let msg = EdPoint::rand(&mut rng);
    let r = ElGamalRandomness::rand(&mut rng);
    let cipher = ElGamal::encrypt(&pp, &pk, &msg, &r).unwrap();
    assert_eq!(cipher.0, pp.generator.mul(&r.0));
    assert_eq!(cipher.1, msg.add(&pk.mul(&r.0)));
    assert_eq!(ElGamal::decrypt(&pp, &sk, &cipher), Ok(msg));
    let other = SecretKey(EdScalar::from_u64(5));
    assert_ne!(ElGamal::decrypt(&pp, &other, &cipher), Ok(msg));
}

#[test]
fn generated_trade_meets_its_statement() {
    let mut rng = StdRng::seed_from_u64(1);
    let c = generatetradeCircuit::generate_circuit(params(), &mut rng).unwrap();
    let rc = params();
    let fee = c.fee.unwrap();
    assert_eq!(fee, Fr::one());
    let balance = |account: &Vec<Fr>| {
        let nonce = account[0].add(&Fr::one()).add(&Fr::one());
        SymmetricEncryptionScheme::decrypt(&rc, c.k_ENA.unwrap(), Ciphertext { r: nonce, c: account[3] })
            .unwrap()
            .m
    };
    let before = balance(c.ENA_before.as_ref().unwrap());
    let after = balance(c.ENA_after.as_ref().unwrap());
    assert_eq!(before, Fr::from_u64(2));
    assert_eq!(after, Fr::from_u64(1));
    assert_eq!(before.sub(&after), fee);
    let pk_cons = c.pk_cons.unwrap();
    let cm = MiMC::evaluate(
        &rc,
        &[c.ENA_writer.unwrap(), c.r.unwrap(), fee, c.h_k.unwrap(), pk_cons.x],
    )
    .unwrap();
    assert_eq!(c.cm, Some(cm));
    assert_eq!(c.CT_ord_key.unwrap().x, c.CT_ord_key_x.unwrap().k);
    let ct = ElGamal::encrypt(&c.G, &c.pk_peer.unwrap(), &c.CT_ord_key.unwrap(), &c.CT_r.unwrap())
        .unwrap();
    assert_eq!((c.G_r.unwrap(), c.c1.unwrap()), ct);
    let order = [pk_cons.x, pk_cons.y, c.r.unwrap(), fee, c.h_k.unwrap()];
    let ct_ord = c.CT_ord.as_ref().unwrap();
    assert_eq!(ct_ord.len(), 5);
    for i in 0..5 {
        let e = SymmetricEncryptionScheme::encrypt(
            &rc,
            Randomness { r: Fr::from_u64(i as u64) },
            c.CT_ord_key_x.unwrap(),
            Plaintext { m: order[i] },
        )
        .unwrap();
        assert_eq!(ct_ord[i], e.c);
    }
}

#[test]
fn accepted_trade_meets_its_statement() {
    let mut rng = StdRng::seed_from_u64(2);
    let c = <AcceptTradeCircuit as TreeMockingCircuit>::generate_circuit(params(), 8, &mut rng).unwrap();
    let rc = params();
    let hk = MiMC::evaluate(&rc, &[c.skseller.unwrap(), c.k_data.unwrap().k]).unwrap();
    assert_eq!(c.hk, Some(hk));
    let cm = MiMC::evaluate(
        &rc,
        &[c.addrseller.unwrap(), c.r.unwrap(), c.fee.unwrap(), hk, c.pkbuyer.unwrap().x],
    )
    .unwrap();
    assert_eq!(c.cm, Some(cm));
    assert_eq!(c.nf, Some(MiMC::evaluate(&rc, &[c.skseller.unwrap(), cm]).unwrap()));
    let payment = MiMC::evaluate(
        &rc,
        &[
            c.oazeroth.unwrap(),
            c.tk_addr.unwrap(),
            c.tk_id.unwrap(),
            c.fee.unwrap(),
            c.addrseller.unwrap(),
        ],
    )
    .unwrap();
    assert_eq!(c.cmAzeroth, Some(payment));
    let path = c.tree_proof.as_ref().unwrap();
    assert_eq!(path.auth_path.len(), 6);
    assert_eq!(c.leaf_pos, Some(0));
    assert_eq!(path.verify(&rc, &rc, &c.rt.unwrap(), &[cm]), Ok(true));
    let ct = ElGamal::encrypt(&c.G, &c.pkbuyer.unwrap(), &c.CT_k_key.unwrap(), &c.CT_k_r.unwrap())
        .unwrap();
    assert_eq!((c.G_r.unwrap(), c.c1.unwrap()), ct);
    let e = SymmetricEncryptionScheme::encrypt(
        &rc,
        Randomness { r: Fr::zero() },
        c.CT_k_x.unwrap(),
        Plaintext { m: c.k_data.unwrap().k },
    )
    .unwrap();
    assert_eq!(c.CT_k, Some(vec![e.c]));
}

#[test]
fn registered_data_meets_its_statement() {
    let d = Data_size { N: 3, M: 4, Data_size: 6, K: 2, Key_len: 1 };
    let mut rng = StdRng::seed_from_u64(3);
    let c = RegisterdataCircuit::generate_circuit_of_sizes(params(), &d, &mut rng).unwrap();
    let key = c.data_key.as_ref().unwrap();
    assert_eq!(key.len(), 1);
    let bits = key[0].to_bits_le();
    let k = Matrix::new(
        (0..4)
            .map(|i| (0..2).map(|j| Fr::from_bool(bits[i * 2 + j])).collect())
            .collect(),
    );
    let a = c.matrix_A.as_ref().unwrap();
    assert_eq!(a.matrix.len(), 3);
    assert_eq!(a.matrix[0].len(), 4);
    let r = c.matrix_R.as_ref().unwrap();
    assert_eq!(*r, a.mul(&k));
    let data = c.data.as_ref().unwrap();
    let ct = c.CT.as_ref().unwrap();
    assert_eq!((data.len(), ct.len()), (6, 6));
    for i in 0..6 {
        assert_eq!(ct[i], data[i].add(&r.matrix[i / 2][i % 2]));
    }
    let h = MiMC::evaluate(&params(), &[key[0], c.sk_seller.unwrap()]).unwrap();
    assert_eq!(c.H_k, Some(h));
    assert_eq!(c.gamma.as_ref().unwrap().matrix.len(), 2);
}

#[test]
fn registered_data_of_128_kb_has_its_sizes() {
    let mut rng = StdRng::seed_from_u64(5);
    let c = <RegisterdataCircuit as MockingCircuit>::generate_circuit(params(), &mut rng).unwrap();
    assert_eq!(c.data.as_ref().unwrap().len(), 4096);
    assert_eq!(c.CT.as_ref().unwrap().len(), 4096);
    assert_eq!(c.data_key.as_ref().unwrap().len(), 17);
    let r = c.matrix_R.as_ref().unwrap();
    assert_eq!((r.matrix.len(), r.matrix[0].len()), (64, 64));
    let data = c.data.as_ref().unwrap();
    let ct = c.CT.as_ref().unwrap();
    assert_eq!(ct[4095], data[4095].add(&r.matrix[63][63]));
}

#[test]
fn bits_come_lowest_first() {
    let bits = Fr::from_u64(0b1011).to_bits_le();
    assert_eq!(bits.len(), 256);
    assert_eq!(&bits[..5], &[true, true, false, true, false]);
    assert!(bits[5..].iter().all(|b| !b));
    let top = Fr::zero().sub(&Fr::one()).to_bits_le();
    assert!(top[253]);
    assert!(!top[254] && !top[255]);
    assert_eq!(Fr::from_bool(true), Fr::one());
    assert_eq!(Fr::from_bool(false), Fr::zero());
}

#[test]
fn circuits_are_created_from_inputs_with_points() {
    let mut rng = StdRng::seed_from_u64(4);
    let g = EdPoint::generator();
    let p = g.mul(&EdScalar::from_u64(3));
    let q = g.mul(&EdScalar::from_u64(5));
    let inputs = generatetradeCircuitInputs {
        statement: generatetradeCircuitStatement {
            cm: Fr::from_u64(1),
            CT_ord: vec![Fr::from_u64(2); 5],
            ENA_before: vec![Fr::from_u64(3); 4],
            ENA_after: vec![Fr::from_u64(4); 4],
            c1: vec![p.x, p.y],
            G_r: vec![q.x, q.y],
        },
        witnesses: generatetradeCircuitWitnesses {
            r: Fr::rand(&mut rng),
            h_k: Fr::from_u64(6),
            ENA_writer: Fr::from_u64(7),
            pk_cons: vec![g.x, g.y],
            pk_peer: vec![p.x, p.y],
            k_ENA: Fr::from_u64(8),
            fee: Fr::from_u64(9),
            CT_ord_key: vec![q.x, q.y],
            CT_ord_key_x: q.x,
            CT_r: EdScalar::from_u64(10),
        },
    };
    let c = inputs.create_circuit(get_constants_generatetrade()).unwrap();
    assert_eq!(c.G_r, Some(q));
    assert_eq!(c.c1, Some(p));
    assert_eq!(c.pk_cons, Some(g));
    assert_eq!(c.CT_ord.as_ref(), Some(&inputs.statement.CT_ord));
    assert_eq!(c.fee, Some(Fr::from_u64(9)));
    assert_eq!(c.G, ElGamalParameters { generator: g });
    assert_eq!(c.CT_r.unwrap().0, EdScalar::from_u64(10));
    let mut off = inputs.clone();
    off.statement.G_r[1] = Fr::from_u64(1);
    assert_eq!(
        off.create_circuit(get_constants_generatetrade()),
        Err(SynthesisError::SerializationError)
    );
    let mut short = inputs;
    short.witnesses.pk_peer.pop();
    assert_eq!(
        short.create_circuit(get_constants_generatetrade()),
        Err(SynthesisError::SerializationError)
    );
    assert_eq!(to_affine(&vec![g.x, g.y]), Some(g));
    assert_eq!(to_affine(&vec![Fr::zero(), Fr::zero().sub(&Fr::one())]), None);
}

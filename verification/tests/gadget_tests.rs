use cc_snark::error::SynthesisError;
use cc_snark::field::Fr;
use cc_snark::gadget::hashes::mimc7::parameters::get_bn256_round_constants;
use cc_snark::gadget::hashes::{CRHScheme, TwoToOneCRHScheme};
use cc_snark::gadget::hashes::mimc7::{MiMC, Parameters, TwoToOneMiMC};
use cc_snark::gadget::merkle_tree::mocking::{
    get_mocking_merkle_tree, select_left_right_child, MockingMerkleTree, Path,
};
use cc_snark::edwards::{EdPoint, EdScalar};
use cc_snark::gadget::nullifiable_encryptions::NullifiableEncryptionScheme;
use cc_snark::gadget::nullifiable_encryptions::elgamalnenc::{
    ElGamalNEnc, MSecretKey, Parameters as EncParameters, Plaintext as EncPlaintext,
    Randomness as EncRandomness,
};
use cc_snark::gadget::symmetric_encrytions::symmetric::{
    Plaintext, Randomness, SymmetricEncryptionScheme, SymmetricKey,
};
use cc_snark::registerdata::{data_set, Matrix};
use rand::rngs::StdRng;
use rand::SeedableRng;

fn params() -> Parameters {
    Parameters { round_constants: get_bn256_round_constants() }
}

#[test]
fn test_mimc() {
    let param = params();
    let xl = Fr::from_u64(111111);
    let xr = Fr::from_u64(111111);
    let res = MiMC::evaluate(&param, &[xl, xr]).unwrap();
    println!("res:: {:?}", res);
    let res = TwoToOneMiMC::evaluate(&param, &xl, &xr).unwrap();
    println!("res:: {:?}", res);
    let res_compress = TwoToOneMiMC::compress(&param, &xl, &xr).unwrap();
    assert_eq!(res_compress, res);
}

#[test]
fn mimc_round_is_the_seventh_power() {
    let r = MiMC::round(&Fr::from_u64(1), &Fr::from_u64(2), &Fr::from_u64(3));
    assert_eq!(r, Fr::from_u64(279936));
}

#[test]
fn mimc_hash_has_the_known_values() {
    let param = params();
    let two = MiMC::evaluate(&param, &[Fr::from_u64(111111), Fr::from_u64(111111)]).unwrap();
    assert_eq!(
        two.limbs,
        [0x2517e13a1927ae89, 0xa2a5d2b64c9c5e35, 0x630e847a3f984178, 0x2d59116f3caecbf5]
    );
    let one = MiMC::evaluate(&param, &[Fr::from_u64(5)]).unwrap();
    assert_eq!(
        one.limbs,
        [0xd3f4f6846a0b9b31, 0xdbce2cbf7eff047c, 0x93370c4913a2b8ac, 0x0dc93d83d5b8bdad]
    );
    let three =
        MiMC::evaluate(&param, &[Fr::from_u64(1), Fr::from_u64(2), Fr::from_u64(3)]).unwrap();
    assert_eq!(
        three.limbs,
        [0x9f82b23568c75682, 0xd190f2f3a1acc22c, 0x2d43b461ff0f5c80, 0x0ef862cdb9929522]
    );
    assert_eq!(
        MiMC::evaluate(&param, &[Fr::from_u64(5), Fr::from_u64(5)]).unwrap(),
        one
    );
}

#[test]
fn there_are_ninety_one_round_constants() {
    let rc = get_bn256_round_constants();
    assert_eq!(rc.len(), 91);
    assert_eq!(
        rc[0].limbs,
        [0xff5f61df13a39401, 0x79de9cee7a56c656, 0x62411ddfcde35274, 0xaed26d6a3f5e0ea6]
    );
    assert_eq!(
        rc[90].limbs,
        [0x4b89f67a695259b2, 0x32ced198dc9a63c7, 0xf561dd4a07d0bb35, 0x361e359068051320]
    );
}

#[test]
fn test_semmetic_encryption() {
    let rc = params();
    let random = Randomness { r: Fr::from_u64(3) };
    let key = SymmetricKey { k: Fr::from_u64(3) };
    let msg = Plaintext { m: Fr::from_u64(5) };
    let ct = SymmetricEncryptionScheme::encrypt(&rc, random, key, msg).unwrap();
    println!("ct: {:?}", ct.c);
    assert_eq!(
        ct.c.limbs,
        [0x4e9f099a51b6927d, 0x1b59b429f907f50f, 0x16bd4e2e097c12b3, 0x1caeb5311be88c4e]
    );
    assert_eq!(ct.r, random.r);
    let m_dec = SymmetricEncryptionScheme::decrypt(&rc, key, ct).unwrap();
    println!("m: {:?}", m_dec.m);
    assert_eq!(m_dec, msg);
}

#[test]
fn decryption_under_another_key_gives_another_message() {
    let rc = params();
    let random = Randomness { r: Fr::from_u64(3) };
    let msg = Plaintext { m: Fr::from_u64(5) };
    let ct = SymmetricEncryptionScheme::encrypt(&rc, random, SymmetricKey { k: Fr::from_u64(3) }, msg)
        .unwrap();
    let other = SymmetricEncryptionScheme::decrypt(&rc, SymmetricKey { k: Fr::from_u64(4) }, ct)
        .unwrap();
    assert_ne!(other, msg);
}

#[test]
fn select_left_right_child_goes_by_the_lowest_bit() {
    assert_eq!(select_left_right_child(4, &10u8, &20u8), Ok((10, 20)));
    assert_eq!(select_left_right_child(5, &10u8, &20u8), Ok((20, 10)));
    assert_eq!(select_left_right_child(0, &10u8, &20u8), Ok((10, 20)));
}

#[test]
fn test_get_mocking_merkle_tree() {
    let tree_height: u64 = 5;
    let path: Path = get_mocking_merkle_tree(tree_height);
    assert_eq!(path.auth_path.len(), (tree_height - 2) as usize);
    assert!(path.auth_path.iter().all(|&x| x == Fr::zero()));
    assert_eq!(path.leaf_index, 0);
    assert_eq!(path.leaf_sibling_hash, Fr::zero());
    assert_eq!(get_mocking_merkle_tree(2).auth_path.len(), 0);
}

#[test]
fn test_get_test_root() {
    let mut rng = StdRng::seed_from_u64(7);
    let tree_height: u64 = 5;
    let leaf = Fr::rand(&mut rng);
    let leaf_hash_params = Parameters::default();
    let two_to_one_params = Parameters::default();
    let path: Path = get_mocking_merkle_tree(tree_height);
    let rt = path.get_test_root(&leaf_hash_params, &two_to_one_params, &[leaf]).unwrap();
    assert!(path.verify(&leaf_hash_params, &two_to_one_params, &rt, &[leaf]).unwrap());
}

#[test]
fn default_parameters_hold_no_round_constant() {
    assert_eq!(Parameters::default(), Parameters { round_constants: vec![] });
}

#[test]
fn another_root_is_refused() {
    let mut rng = StdRng::seed_from_u64(7);
    let leaf = Fr::rand(&mut rng);
    let p = params();
    let path: Path = get_mocking_merkle_tree(5);
    let rt = path.get_test_root(&p, &p, &[leaf]).unwrap();
    assert!(path.verify(&p, &p, &rt, &[leaf]).unwrap());
    let other = rt.add(&Fr::one());
    assert!(!path.verify(&p, &p, &other, &[leaf]).unwrap());
}

#[test]
fn roots_have_the_known_values() {
    let p = params();
    let zeros = get_mocking_merkle_tree(5);
    let root = zeros.get_test_root(&p, &p, &[Fr::from_u64(7)]).unwrap();
    assert_eq!(
        root.limbs,
        [0xfd56ec1cd635164b, 0xe3415070f921aa84, 0x38635fc91e6af1cf, 0x0a7332cc72293854]
    );
    let path = Path {
        leaf_sibling_hash: Fr::from_u64(11),
        auth_path: vec![Fr::from_u64(21), Fr::from_u64(22), Fr::from_u64(23)],
        leaf_index: 5,
    };
    let root = path.get_test_root(&p, &p, &[Fr::from_u64(7)]).unwrap();
    assert_eq!(
        root.limbs,
        [0xd103ff63c453ca00, 0x1c18b585623f97e1, 0x98498333663ac1f3, 0x232d8b85d36afab5]
    );
}

#[test]
fn test_nullifiable_encryption() {
    let rng = &mut StdRng::seed_from_u64(11);
    let selectbit = true;
    let parameters = ElGamalNEnc::setup(rng).unwrap();
    assert!(parameters.generator.is_on_curve());
    let (mpk, msk) = ElGamalNEnc::keygen(&parameters, rng).unwrap();
    let x = EncRandomness::rand(rng);
    let pk = ElGamalNEnc::pkgen(&parameters, &mpk, selectbit, &x).unwrap();
    let msg = EncPlaintext::rand(rng);
    let r = EncRandomness::rand(rng);
    let pre_cipher = ElGamalNEnc::preencrypt(&pk, &msg).unwrap();
    let cipher = ElGamalNEnc::encrypt(&parameters, &mpk, &pre_cipher, &r).unwrap();
    let check = ElGamalNEnc::open(&parameters, &msk, &msg, &cipher).unwrap();
    println!("{}", check);
}

fn small_keys() -> (EncParameters, EdPoint, MSecretKey) {
    let pp = EncParameters { generator: EdPoint::generator() };
    assert!(pp.generator.is_on_curve());
    let msk = MSecretKey(EdScalar::from_u64(77));
    let mpk = pp.generator.mul(&msk.0);
    (pp, mpk, msk)
}

#[test]
fn a_master_key_encryption_decrypts_to_its_message() {
    let (pp, mpk, msk) = small_keys();
    let m = EncPlaintext(EdScalar::from_u64(9));
    let ct = ElGamalNEnc::encrypt(
        &pp,
        &mpk,
        &(EdPoint { x: Fr::zero(), y: Fr::one() }, pp.generator.mul(&m.0)),
        &EncRandomness(EdScalar::from_u64(5)),
    )
    .unwrap();
    assert_eq!(ElGamalNEnc::open(&pp, &msk, &m, &ct), Ok(true));
    assert_eq!(ElGamalNEnc::open(&pp, &msk, &EncPlaintext(EdScalar::from_u64(8)), &ct), Ok(false));
    assert_eq!(ElGamalNEnc::decrypt(&pp, &mpk, &msk, &ct, 20), Ok(m));
    assert_eq!(
        ElGamalNEnc::decrypt(&pp, &mpk, &msk, &ct, 8),
        Err(SynthesisError::MessageOutOfRange)
    );
    let wrong = pp.generator.mul(&EdScalar::from_u64(78));
    assert_eq!(
        ElGamalNEnc::decrypt(&pp, &wrong, &msk, &ct, 20),
        Ok(EncPlaintext(EdScalar::from_u64(0)))
    );
}

#[test]
fn public_keys_follow_the_select_bit() {
    let (pp, mpk, _) = small_keys();
    let x = EncRandomness(EdScalar::from_u64(3));
    let fake = ElGamalNEnc::pkgen(&pp, &mpk, false, &x).unwrap();
    let real = ElGamalNEnc::pkgen(&pp, &mpk, true, &x).unwrap();
    assert_eq!(fake.0, pp.generator.mul(&x.0));
    assert_eq!(real.0, fake.0);
    assert_eq!(fake.1, mpk.mul(&x.0));
    assert_eq!(real.1, fake.1.add(&pp.generator));
    let m = EncPlaintext(EdScalar::from_u64(4));
    let pre = ElGamalNEnc::preencrypt(&real, &m).unwrap();
    assert_eq!(pre.0, real.0.mul(&m.0));
    assert_eq!(pre.1, real.1.mul(&m.0));
}

#[test]
fn edwards_points_add_and_negate() {
    let g = EdPoint::generator();
    assert!(g.is_on_curve());
    assert!(!EdPoint { x: Fr::from_u64(1), y: Fr::from_u64(1) }.is_on_curve());
    let zero = EdPoint { x: Fr::zero(), y: Fr::one() };
    assert!(zero.is_zero());
    assert!(!g.is_zero());
    assert_eq!(g.add(&g), g.mul(&EdScalar::from_u64(2)));
    assert!(g.add(&g.neg()).is_zero());
    assert!(g.same_value(&g.add(&zero)));
}

#[test]
fn matrices_multiply_row_by_column() {
    let f = Fr::from_u64;
    let a = Matrix::new(vec![vec![f(1), f(2)], vec![f(3), f(4)], vec![f(5), f(6)]]);
    let b = Matrix::new(vec![vec![f(7), f(8)], vec![f(9), f(10)]]);
    let c = a.mul(&b);
    assert_eq!(
        c.matrix,
        vec![vec![f(25), f(28)], vec![f(57), f(64)], vec![f(89), f(100)]]
    );
}

#[test]
fn the_data_set_is_the_one_for_128_kb() {
    let d = data_set();
    assert_eq!((d.N, d.M, d.Data_size, d.K, d.Key_len), (64, 65, 4096, 64, 17));
}

#[test]
fn a_drawn_scalar_is_held_as_its_least_residue() {
    let mut rng = StdRng::seed_from_u64(11);
    for _ in 0..16 {
        let s = EdScalar::rand(&mut rng);
        assert_eq!(EdScalar::from_hex(&s.to_hex()), Some(s));
    }
    // Limbs that hold more than the order are not what a draw gives.
    let large = EdScalar { limbs: [u64::MAX, u64::MAX, u64::MAX, u64::MAX] };
    assert_ne!(EdScalar::from_hex(&large.to_hex()), Some(large));
}

#[test]
fn drawn_randomness_and_messages_are_least_residues() {
    let mut rng = StdRng::seed_from_u64(12);
    let r = EncRandomness::rand(&mut rng);
    assert_eq!(EdScalar::from_hex(&r.0.to_hex()), Some(r.0));
    let m = EncPlaintext::rand(&mut rng);
    assert_eq!(EdScalar::from_hex(&m.0.to_hex()), Some(m.0));
    let k = cc_snark::gadget::public_encryptions::elgamal::Randomness::rand(&mut rng);
    assert_eq!(EdScalar::from_hex(&k.0.to_hex()), Some(k.0));
    assert_ne!(r.0, m.0);
}

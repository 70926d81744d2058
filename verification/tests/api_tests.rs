use cc_snark::api::cc_groth16::commitment::{CommitmentFields, CommitmentWrapper};
use cc_snark::api::cc_groth16::proofs::{ProofFields, ProofWrapper};
use cc_snark::api::cc_groth16::vk::VerifyingKeyWrapper;
use cc_snark::api::generatetrade::structure::constants::get_constants_generatetrade;
use cc_snark::api::generatetrade::structure::inputs::generatetradeCircuitInputs;
use cc_snark::api::generatetrade::structure::statement::generatetradeCircuitStatement;
use cc_snark::api::generatetrade::structure::witnesses::generatetradeCircuitWitnesses;
use cc_snark::api::serialize::{
    deserialize_from_hex_string, serialize_to_hex_string, serialize_uncompressed_to_hex_string,
    to_contract_word,
};
use cc_snark::cc_gro::data_structures::{Proof, VerifyingKey};
use cc_snark::curve::{G1Point, G2Point};
use cc_snark::error::SynthesisError;
use cc_snark::field::{Fq, Fr};
use cc_snark::edwards::{EdPoint, EdScalar};

fn f(v: u64) -> Fr {
    Fr::from_u64(v)
}

#[test]
fn field_elements_in_hexadecimal() {
    assert_eq!(Fr::zero().to_hex(), "0");
    assert_eq!(f(255).to_hex(), "ff");
    assert_eq!(f(4096).to_hex(), "1000");
    assert_eq!(Fr::from_hex("ff"), Some(f(255)));
    assert_eq!(Fr::from_hex("FF"), Some(f(255)));
    assert_eq!(Fr::from_hex("00ff"), Some(f(255)));
    assert_eq!(Fr::from_hex(""), None);
    assert_eq!(Fr::from_hex("xyz"), None);
    assert_eq!(Fr::from_hex("0x10"), None);
    assert_eq!(
        Fr::from_hex("30644e72e131a029b85045b68181585d2833e84879b9709143e1f593f0000002"),
        Some(f(1))
    );
    assert_eq!(Fq::from_u64(26).to_hex(), "1a");
    assert_eq!(Fq::from_hex("1a"), Some(Fq::from_u64(26)));
    assert_eq!(EdScalar::from_u64(26).to_hex(), "1a");
    assert_eq!(EdScalar::from_hex("1a").unwrap().to_hex(), "1a");
    assert_eq!(
        Fr::zero().sub(&f(1)).to_hex(),
        "30644e72e131a029b85045b68181585d2833e84879b9709143e1f593f0000000"
    );
}

#[test]
fn bytes_in_hexadecimal() {
    assert_eq!(serialize_to_hex_string(&[1, 2, 3, 15, 16]), Ok("0102030f10".to_string()));
    assert_eq!(serialize_uncompressed_to_hex_string(&[0xab, 0]), Ok("ab00".to_string()));
    assert_eq!(serialize_to_hex_string(&[]), Ok(String::new()));
    assert_eq!(deserialize_from_hex_string("0102030f10"), Ok(vec![1, 2, 3, 15, 16]));
    assert_eq!(deserialize_from_hex_string("000102"), Ok(vec![1, 2]));
    assert_eq!(deserialize_from_hex_string("0"), Ok(vec![0]));
    assert!(deserialize_from_hex_string("zz").is_err());
}

#[test]
fn contract_words_are_filled_up_to_64_digits() {
    assert_eq!(
        to_contract_word("1a"),
        "0x000000000000000000000000000000000000000000000000000000000000001a"
    );
    let full = "30644e72e131a029b85045b68181585d2833e84879b9709143e1f593f0000000";
    assert_eq!(to_contract_word(full), format!("0x{}", full));
}

fn small_key() -> VerifyingKey {
    let g = G1Point::generator();
    let h = G2Point::generator();
    VerifyingKey {
        alpha_g1: g.mul(&f(2)),
        beta_g2: h.mul(&f(3)),
        gamma_g2: h.mul(&f(4)),
        delta_g2: h.mul(&f(5)),
        gamma_abc_g1: vec![g, g.mul(&f(7))],
    }
}

#[test]
fn contract_arguments_list_alpha_the_inverses_and_the_bases() {
    let vk = small_key();
    let args = VerifyingKeyWrapper::new(&vk).vk_to_contract_args();
    assert_eq!(args.len(), 2 + 3 * 4 + 2 * 2);
    assert_eq!(args[0], to_contract_word(&vk.alpha_g1.x.to_hex()));
    assert_eq!(args[1], to_contract_word(&vk.alpha_g1.y.to_hex()));
    let minus_beta = vk.beta_g2.neg();
    assert_eq!(args[2], to_contract_word(&minus_beta.x.c1.to_hex()));
    assert_eq!(args[3], to_contract_word(&minus_beta.x.c0.to_hex()));
    assert_eq!(args[4], to_contract_word(&minus_beta.y.c1.to_hex()));
    assert_eq!(args[5], to_contract_word(&minus_beta.y.c0.to_hex()));
    assert_eq!(args[6], to_contract_word(&vk.gamma_g2.x.c1.to_hex()));
    assert_eq!(args[13], to_contract_word(&vk.delta_g2.neg().y.c0.to_hex()));
    assert_eq!(
        args[14],
        "0x0000000000000000000000000000000000000000000000000000000000000001"
    );
    assert_eq!(
        args[15],
        "0x0000000000000000000000000000000000000000000000000000000000000002"
    );
    assert_eq!(args[16], to_contract_word(&vk.gamma_abc_g1[1].x.to_hex()));
    assert!(args.iter().all(|a| a.len() == 66));
}

#[test]
fn verifying_key_fields_round_trip() {
    let vk = small_key();
    let wrapper = VerifyingKeyWrapper::new(&vk);
    let fields = wrapper.to_fields();
    assert_eq!(fields.Alpha_g1, vec![vk.alpha_g1.x.to_hex(), vk.alpha_g1.y.to_hex()]);
    assert_eq!(fields.Beta_g2.len(), 4);
    assert_eq!(fields.Beta_g2[1], vk.beta_g2.x.c1.to_hex());
    assert_eq!(fields.Gamma_abc_g1.len(), 4);
    assert_eq!(fields.Gamma_abc_g1[0], "1");
    assert_eq!(fields.Gamma_abc_g1[1], "2");
    assert_eq!(VerifyingKeyWrapper::from_fields(&fields).unwrap().vk(), vk);
    let mut bad = fields.clone();
    bad.Gamma_abc_g1.pop();
    assert_eq!(VerifyingKeyWrapper::from_fields(&bad), Err(SynthesisError::SerializationError));
    let mut bad = fields.clone();
    bad.Alpha_g1[1] = "3".to_string();
    assert_eq!(VerifyingKeyWrapper::from_fields(&bad), Err(SynthesisError::SerializationError));
    let mut bad = fields.clone();
    bad.Delta_g2[0] = "not a number".to_string();
    assert_eq!(VerifyingKeyWrapper::from_fields(&bad), Err(SynthesisError::SerializationError));
    let mut bad = fields;
    bad.Beta_g2.pop();
    assert_eq!(VerifyingKeyWrapper::from_fields(&bad), Err(SynthesisError::SerializationError));
}

#[test]
fn proof_and_commitment_fields_round_trip() {
    let g = G1Point::generator();
    let proof = Proof {
        a: g.mul(&f(2)),
        b: G2Point::generator().mul(&f(3)),
        c: g.mul(&f(4)),
        cm: g.mul(&f(5)),
    };
    let fields = ProofWrapper::new(&proof).to_fields();
    assert_eq!(fields.A, vec![proof.a.x.to_hex(), proof.a.y.to_hex()]);
    assert_eq!(fields.B[2], proof.b.y.c0.to_hex());
    let commitment = CommitmentWrapper::new(&proof.cm);
    let cm_fields = commitment.to_fields();
    assert_eq!(cm_fields.x, proof.cm.x.to_hex());
    let back = CommitmentWrapper::from_fields(&cm_fields).unwrap();
    assert_eq!(back.commitment(), proof.cm);
    assert_eq!(ProofWrapper::from_fields(&fields, &back).unwrap().into_proof(), proof);
    let off = CommitmentFields { x: "1".to_string(), y: "3".to_string() };
    assert_eq!(CommitmentWrapper::from_fields(&off), Err(SynthesisError::SerializationError));
    let short = ProofFields { A: vec!["1".to_string()], B: fields.B.clone(), C: fields.C.clone() };
    assert_eq!(ProofWrapper::from_fields(&short, &back), Err(SynthesisError::SerializationError));
}

fn statement() -> generatetradeCircuitStatement {
    generatetradeCircuitStatement {
        cm: f(1),
        CT_ord: vec![f(2), f(3)],
        ENA_before: vec![f(4)],
        ENA_after: vec![f(5), f(6)],
        c1: vec![f(9), f(10)],
        G_r: vec![f(7), f(8)],
    }
}

fn witnesses() -> generatetradeCircuitWitnesses {
    generatetradeCircuitWitnesses {
        r: f(11),
        h_k: f(12),
        ENA_writer: f(13),
        pk_cons: vec![f(14), f(15)],
        pk_peer: vec![f(16), f(17)],
        k_ENA: f(18),
        fee: Fr::zero(),
        CT_ord_key: vec![f(20), f(21)],
        CT_ord_key_x: f(22),
        CT_r: EdScalar::from_u64(23),
    }
}

#[test]
fn statement_lists_its_inputs_in_the_order_of_the_circuit() {
    let v = statement().to_vec().unwrap();
    assert_eq!(v, (1..=10).map(f).collect::<Vec<_>>());
}

#[test]
fn statement_and_witness_fields_round_trip() {
    let s = statement();
    let fields = s.to_fields();
    assert_eq!(fields.cm, "1");
    assert_eq!(fields.c1, vec!["9".to_string(), "a".to_string()]);
    assert_eq!(generatetradeCircuitStatement::from_fields(&fields), Ok(s.clone()));
    let mut bad = fields.clone();
    bad.CT_ord[1] = "g".to_string();
    assert_eq!(
        generatetradeCircuitStatement::from_fields(&bad),
        Err(SynthesisError::SerializationError)
    );
    let w = witnesses();
    let wf = w.to_fields();
    assert_eq!(wf.fee, "0");
    assert_eq!(wf.CT_r, "17");
    assert_eq!(generatetradeCircuitWitnesses::from_fields(&wf), Ok(w.clone()));
    let mut bad = wf.clone();
    bad.CT_r = String::new();
    assert_eq!(
        generatetradeCircuitWitnesses::from_fields(&bad),
        Err(SynthesisError::SerializationError)
    );
    let inputs = generatetradeCircuitInputs { statement: s, witnesses: w };
    let back = generatetradeCircuitInputs::from_fields(&inputs.to_fields()).unwrap();
    assert_eq!(back, inputs);
}

#[test]
fn constants_hold_the_round_constants_and_the_generator() {
    let c = get_constants_generatetrade();
    assert_eq!(c.rc.round_constants.len(), 91);
    assert_eq!(c.G, EdPoint::generator());
    assert!(c.G.is_on_curve());
}

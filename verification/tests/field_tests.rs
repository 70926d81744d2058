use cc_snark::field::{Fq, Fr};

const R_MINUS_ONE: [u64; 4] = [
    0x43e1f593f0000000,
    0x2833e84879b97091,
    0xb85045b68181585d,
    0x30644e72e131a029,
];

const R: [u64; 4] = [
    0x43e1f593f0000001,
    0x2833e84879b97091,
    0xb85045b68181585d,
    0x30644e72e131a029,
];

#[test]
fn add_small_values() {
    assert_eq!(Fr::from_u64(3).add(&Fr::from_u64(4)), Fr::from_u64(7));
}

#[test]
fn add_wraps_at_the_order() {
    let top = Fr { limbs: R_MINUS_ONE };
    assert_eq!(top.add(&Fr::from_u64(1)), Fr::zero());
    assert_eq!(top.add(&Fr::from_u64(5)), Fr::from_u64(4));
}

#[test]
fn sub_borrows_from_the_order() {
    assert_eq!(Fr::from_u64(3).sub(&Fr::from_u64(4)), Fr { limbs: R_MINUS_ONE });
    assert_eq!(Fr::from_u64(9).sub(&Fr::from_u64(4)), Fr::from_u64(5));
}

#[test]
fn mul_small_and_large() {
    assert_eq!(Fr::from_u64(6).mul(&Fr::from_u64(7)), Fr::from_u64(42));
    let top = Fr { limbs: R_MINUS_ONE };
    assert_eq!(top.mul(&top), Fr::one());
}

#[test]
fn inverse_of_zero_is_none_and_of_two_is_half() {
    assert_eq!(Fr::zero().inverse(), None);
    let half = Fr::from_u64(2).inverse().unwrap();
    assert_eq!(half.mul(&Fr::from_u64(2)), Fr::one());
    assert_eq!(
        half,
        Fr {
            limbs: [
                0xa1f0fac9f8000001,
                0x9419f4243cdcb848,
                0xdc2822db40c0ac2e,
                0x183227397098d014
            ]
        }
    );
}

#[test]
fn limbs_of_the_order_stand_for_zero() {
    let x = Fr { limbs: R };
    assert!(x.is_zero());
    assert!(x.same_value(&Fr::zero()));
    assert_eq!(x.reduce(), Fr::zero());
    assert!(!Fr::one().is_zero());
    assert!(!Fr::one().same_value(&Fr::from_u64(2)));
}

#[test]
fn base_field_negation_and_reduction() {
    assert_eq!(Fq::zero().neg(), Fq::zero());
    let minus_one = Fq::from_u64(1).neg();
    assert_eq!(
        minus_one,
        Fq {
            limbs: [
                0x3c208c16d87cfd46,
                0x97816a916871ca8d,
                0xb85045b68181585d,
                0x30644e72e131a029
            ]
        }
    );
    let q = Fq {
        limbs: [
            0x3c208c16d87cfd47,
            0x97816a916871ca8d,
            0xb85045b68181585d,
            0x30644e72e131a029,
        ],
    };
    assert_eq!(q.reduce(), Fq::zero());
    assert!(q.same_value(&Fq::zero()));
}

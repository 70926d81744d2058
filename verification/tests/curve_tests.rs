use cc_snark::curve::{
    final_exponentiation, msm_g1, msm_g2, multi_miller_loop, pairing, G1Point, G2Point,
};
use cc_snark::field::{Fq, Fr};

#[test]
fn doubling_the_generator_of_g1() {
    let g = G1Point::generator();
    let twice = g.add(&g);
    assert_eq!(twice, g.mul(&Fr::from_u64(2)));
    assert_eq!(
        twice.x,
        Fq {
            limbs: [
                0xd3c208c16d87cfd3,
                0xd97816a916871ca8,
                0x9b85045b68181585,
                0x030644e72e131a02
            ]
        }
    );
    assert!(!twice.same_value(&g));
}

#[test]
fn the_identity_is_neutral() {
    let g = G1Point::generator();
    assert_eq!(g.add(&G1Point::identity()), g);
    assert_eq!(g.mul(&Fr::zero()), G1Point::identity());
    assert_eq!(g.add(&g.neg()), G1Point::identity());
    let h = G2Point::generator();
    assert_eq!(h.add(&G2Point::identity()), h);
    assert_eq!(h.add(&h.neg()), G2Point::identity());
    assert_eq!(G2Point::identity().neg(), G2Point::identity());
    assert_eq!(G1Point::identity().neg(), G1Point::identity());
}

#[test]
fn negation_changes_the_sign_of_y_only() {
    let g = G1Point::generator();
    let n = g.neg();
    assert_eq!(n.x, g.x);
    assert_eq!(n.y, Fq::from_u64(2).neg());
    let h = G2Point::generator();
    let m = h.neg();
    assert_eq!(m.x, h.x);
    assert_eq!(m.y.c0, h.y.c0.neg());
    assert_eq!(m.y.c1, h.y.c1.neg());
}

#[test]
fn sums_of_multiples_agree_with_single_steps() {
    let g = G1Point::generator();
    let bases = vec![g, g.mul(&Fr::from_u64(5))];
    let scalars = vec![Fr::from_u64(3), Fr::from_u64(2)];
    assert_eq!(msm_g1(&bases, &scalars), g.mul(&Fr::from_u64(13)));
    let h = G2Point::generator();
    let bases = vec![h, h.mul(&Fr::from_u64(5))];
    assert_eq!(msm_g2(&bases, &scalars), h.mul(&Fr::from_u64(13)));
    assert_eq!(msm_g1(&Vec::new(), &Vec::new()), G1Point::identity());
    assert_eq!(msm_g2(&Vec::new(), &Vec::new()), G2Point::identity());
}

#[test]
fn the_pairing_is_bilinear() {
    let g = G1Point::generator();
    let h = G2Point::generator();
    let six = Fr::from_u64(6);
    let left = pairing(&g.mul(&six), &h).unwrap();
    let right = pairing(&g, &h.mul(&six)).unwrap();
    assert!(left.same_value(&right));
    let plain = pairing(&g, &h).unwrap();
    assert!(!plain.same_value(&left));
}

#[test]
fn a_pairing_and_its_inverse_multiply_to_one() {
    let g = G1Point::generator();
    let h = G2Point::generator();
    let f = multi_miller_loop(&vec![g, g], &vec![h, h.neg()]);
    let one = final_exponentiation(&f).unwrap();
    assert_eq!(one.c[0], Fq::from_u64(1));
    for i in 1..12 {
        assert_eq!(one.c[i], Fq::zero());
    }
}

#[test]
fn the_final_exponentiation_of_zero_is_not_defined() {
    let g = G1Point::generator();
    let h = G2Point::generator();
    let mut f = multi_miller_loop(&vec![g], &vec![h]);
    for i in 0..12 {
        f.c[i] = Fq::zero();
    }
    assert!(final_exponentiation(&f).is_none());
}

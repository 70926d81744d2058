//! What every proof of a generated trade shares.
use crate::gadget::hashes::mimc7::parameters::{
    get_bn256_round_constants, ROUNDS, ROUND_CONSTANTS,
};
use crate::gadget::hashes::mimc7::Parameters;
use crate::edwards::EdPoint;
use vstd::prelude::*;

verus! {

/// The round constants of the hash and the generator of the encryption.
#[allow(non_camel_case_types)]
#[allow(non_snake_case)]
#[derive(Clone, Debug, PartialEq, Eq)]
pub struct generatetradeCircuitConstants {
    pub rc: Parameters,
    pub G: EdPoint,
}

/// The constants: the round constants of MiMC-7 for BN254 and the generator
/// of the curve.
pub fn get_constants_generatetrade() -> (r: generatetradeCircuitConstants)
    ensures
        r.rc.round_constants.len() == ROUNDS,
        forall|i: int|
            0 <= i < ROUNDS ==> (#[trigger] r.rc.round_constants[i]).limbs == ROUND_CONSTANTS[i],
        r.G == EdPoint::generator_value(),
{
    generatetradeCircuitConstants {
        rc: Parameters { round_constants: get_bn256_round_constants() },
        G: EdPoint::generator(),
    }
}

} // verus!

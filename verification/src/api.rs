//! What the outside world sees of keys, proofs and statements: bytes and
//! hexadecimal strings.
pub mod cc_groth16;
pub mod generatetrade;
pub mod rw;
pub mod serialize;

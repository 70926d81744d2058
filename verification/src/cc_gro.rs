//! The commitment-carrying Groth16 proof system.
pub mod data_structures;
pub mod generator;
pub mod prover;
pub mod r1cs_to_qap;
pub mod verifying;

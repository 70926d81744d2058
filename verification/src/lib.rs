//! Commitment-carrying Groth16 over BN254.
//!
//! A prover shows that a private assignment meets the constraints of a
//! circuit, and commits to part of it; a verifier checks the proof against
//! the public inputs with one product of pairings, into which the
//! commitment is folded.
//!
//! [`r1cs`] holds constraint systems, [`cc_gro`] the reduction to quadratic
//! arithmetic programs, setup, proving and verification. [`field`],
//! [`curve`] and [`edwards`] hold the fields and groups, whose arithmetic is
//! `arkworks`'; [`encoding`] and [`api`] hold keys and proofs as bytes and as
//! hexadecimal strings. [`gadget`] holds the hash, the Merkle path and the
//! encryption schemes that the statements of [`generatetrade`],
//! [`accepttrade`] and [`registerdata`] are made of.
pub mod accepttrade;
pub mod api;
pub mod cc_gro;
pub mod curve;
pub mod edwards;
pub mod encoding;
pub mod error;
pub mod field;
pub mod gadget;
pub mod generatetrade;
pub mod r1cs;
pub mod registerdata;

//! Merkle paths over the MiMC-7 hash.
pub mod mocking;

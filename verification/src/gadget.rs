//! The building blocks that the statements are made of: a hash, a Merkle
//! path, and two encryption schemes.
pub mod hashes;
pub mod merkle_tree;
pub mod nullifiable_encryptions;
pub mod public_encryptions;
pub mod symmetric_encrytions;

//! Symmetric encryption of field elements.
pub mod symmetric;

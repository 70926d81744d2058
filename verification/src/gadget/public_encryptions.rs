//! Public-key encryption of points of the twisted Edwards curve.
pub mod elgamal;

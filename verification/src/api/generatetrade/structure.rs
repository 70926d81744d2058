//! What a proof of a generated trade is about, and what it is made from.
pub mod constants;
pub mod inputs;
pub mod statement;
pub mod witnesses;

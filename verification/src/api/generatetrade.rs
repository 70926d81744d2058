//! The statement that generates a trade, as it travels in JSON.
pub mod structure;

//! The values that requests are made of.

pub mod amount;
pub mod asset;
pub mod blockchain;
pub mod keys;
pub mod market;
pub mod nonce;
pub mod order;

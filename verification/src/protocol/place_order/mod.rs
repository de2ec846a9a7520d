//! What the placing of a single order is made of.

pub mod blockchain;
pub mod request;
pub mod types;

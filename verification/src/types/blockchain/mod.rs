//! What is particular to each blockchain: its addresses and public keys.

pub mod btc;
pub mod eth;
pub mod neo;

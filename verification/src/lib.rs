//! Order construction and request signing for an exchange client.
//!
//! The crate turns a trading intent into the payloads that are signed and
//! sent: it resolves markets, expands nonce pools, derives the settlement
//! structure for every blockchain a market touches, produces the canonical
//! string over which a request is signed, and assembles batched requests.

pub mod canonical;
pub mod errors;
pub mod graphql;
pub mod product;
pub mod protocol;
pub mod state;
pub mod text;
pub mod types;

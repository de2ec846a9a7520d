//! Settlement on Bitcoin.

use vstd::prelude::*;
use crate::types::nonce::Nonce;

verus! {

/// What is signed for Bitcoin: the two asset nonces only. The contract takes
/// assets, address and rates from elsewhere.
#[derive(Clone, Copy, Debug, PartialEq, Eq, Structural)]
pub struct FillOrder {
    pub asset_nonce_from: Nonce,
    pub asset_nonce_to: Nonce,
}

impl FillOrder {
    /// The structure with the given nonces.
    pub fn new(asset_nonce_from: Nonce, asset_nonce_to: Nonce) -> (r: Self)
        ensures
            r == (FillOrder { asset_nonce_from, asset_nonce_to }),
    {
        Self { asset_nonce_from, asset_nonce_to }
    }
}

} // verus!

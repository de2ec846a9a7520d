//! Settlement on NEO.

use vstd::prelude::*;
use crate::types::amount::Amount;
use crate::types::asset::Asset;
use crate::types::blockchain::neo::PublicKey;
use crate::types::nonce::Nonce;
use crate::types::order::Rate;

verus! {

/// What is signed for NEO: as for Ethereum, but with the signer's key on
/// NEO's own curve in place of an address.
#[derive(Debug, PartialEq)]
pub struct FillOrder {
    pub public_key: PublicKey,
    pub asset_from: Asset,
    pub asset_to: Asset,
    pub asset_nonce_from: Nonce,
    pub asset_nonce_to: Nonce,
    /// The amount traded, in the asset given.
    pub amount: Amount,
    pub min_order: Rate,
    pub max_order: Rate,
    pub fee_rate: Rate,
    pub order_nonce: Nonce,
}

impl Clone for FillOrder {
    fn clone(&self) -> (r: Self)
        ensures
            r == *self,
    {
        FillOrder {
            public_key: self.public_key.clone(),
            asset_from: self.asset_from,
            asset_to: self.asset_to,
            asset_nonce_from: self.asset_nonce_from,
            asset_nonce_to: self.asset_nonce_to,
            amount: self.amount,
            min_order: self.min_order,
            max_order: self.max_order,
            fee_rate: self.fee_rate,
            order_nonce: self.order_nonce,
        }
    }
}

impl FillOrder {
    /// The structure with the given fields.
    pub fn new(
        public_key: PublicKey,
        asset_from: Asset,
        asset_to: Asset,
        asset_nonce_from: Nonce,
        asset_nonce_to: Nonce,
        amount: Amount,
        min_order: Rate,
        max_order: Rate,
        fee_rate: Rate,
        order_nonce: Nonce,
    ) -> (r: Self)
        ensures
            r == (FillOrder {
                public_key,
                asset_from,
                asset_to,
                asset_nonce_from,
                asset_nonce_to,
                amount,
                min_order,
                max_order,
                fee_rate,
                order_nonce,
            }),
    {
        Self {
            public_key,
            asset_from,
            asset_to,
            asset_nonce_from,
            asset_nonce_to,
            amount,
            min_order,
            max_order,
            fee_rate,
            order_nonce,
        }
    }
}

} // verus!

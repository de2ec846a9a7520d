//! The settlement structure of an order, one shape for each blockchain.

use vstd::prelude::*;
use crate::types::asset::Blockchain;
use crate::types::nonce::Nonce;

pub mod btc;
pub mod eth;
pub mod neo;

verus! {

/// What is signed to settle an order on one blockchain. Each blockchain asks
/// for its own fields.
#[derive(Debug, PartialEq)]
pub enum FillOrder {
    Ethereum(eth::FillOrder),
    Bitcoin(btc::FillOrder),
    NEO(neo::FillOrder),
}

impl Clone for FillOrder {
    fn clone(&self) -> (r: Self)
        ensures
            r == *self,
    {
        match self {
            FillOrder::Ethereum(order) => FillOrder::Ethereum(order.clone()),
            FillOrder::Bitcoin(order) => FillOrder::Bitcoin(order.clone()),
            FillOrder::NEO(order) => FillOrder::NEO(order.clone()),
        }
    }
}

impl FillOrder {
    /// The blockchain that the structure is for.
    pub open spec fn spec_blockchain(&self) -> Blockchain {
        match self {
            FillOrder::Ethereum(_) => Blockchain::Ethereum,
            FillOrder::Bitcoin(_) => Blockchain::Bitcoin,
            FillOrder::NEO(_) => Blockchain::NEO,
        }
    }

    /// The blockchain that the structure is for.
    #[verifier::when_used_as_spec(spec_blockchain)]
    pub fn blockchain(&self) -> (r: Blockchain)
        ensures
            r == self.spec_blockchain(),
    {
        match self {
            FillOrder::Ethereum(_) => Blockchain::Ethereum,
            FillOrder::Bitcoin(_) => Blockchain::Bitcoin,
            FillOrder::NEO(_) => Blockchain::NEO,
        }
    }

    /// The nonce of the asset given, as the structure carries it.
    pub open spec fn spec_nonce_from(&self) -> Nonce {
        match self {
            FillOrder::Ethereum(order) => order.asset_nonce_from,
            FillOrder::Bitcoin(order) => order.asset_nonce_from,
            FillOrder::NEO(order) => order.asset_nonce_from,
        }
    }

    /// The nonce of the asset given, as the structure carries it.
    #[verifier::when_used_as_spec(spec_nonce_from)]
    pub fn nonce_from(&self) -> (r: Nonce)
        ensures
            r == self.spec_nonce_from(),
    {
        match self {
            FillOrder::Ethereum(order) => order.asset_nonce_from,
            FillOrder::Bitcoin(order) => order.asset_nonce_from,
            FillOrder::NEO(order) => order.asset_nonce_from,
        }
    }

    /// The nonce of the asset received, as the structure carries it.
    pub open spec fn spec_nonce_to(&self) -> Nonce {
        match self {
            FillOrder::Ethereum(order) => order.asset_nonce_to,
            FillOrder::Bitcoin(order) => order.asset_nonce_to,
            FillOrder::NEO(order) => order.asset_nonce_to,
        }
    }

    /// The nonce of the asset received, as the structure carries it.
    #[verifier::when_used_as_spec(spec_nonce_to)]
    pub fn nonce_to(&self) -> (r: Nonce)
        ensures
            r == self.spec_nonce_to(),
    {
        match self {
            FillOrder::Ethereum(order) => order.asset_nonce_to,
            FillOrder::Bitcoin(order) => order.asset_nonce_to,
            FillOrder::NEO(order) => order.asset_nonce_to,
        }
    }
}

} // verus!

//! The nonces of a payload.

use vstd::prelude::*;
use crate::types::amount::AssetAmount;
use crate::types::asset::{Asset, AssetOfPrecision, Blockchain};
use crate::types::market::Market;
use crate::types::nonce::Nonce;
use crate::types::order::{BuyOrSell, OrderCancellationPolicy, OrderRate};

verus! {

/// The nonces that one signing attempt uses: that of the asset given, that
/// of the asset received, and that of the order itself.
#[derive(Clone, Copy, Debug, PartialEq, Eq, Structural)]
pub struct PayloadNonces {
    pub nonce_from: Nonce,
    pub nonce_to: Nonce,
    pub order_nonce: Nonce,
}

/// The nonce of `asset` in a payload that is signed for `chain`: the nonce
/// itself where the asset settles on that chain, and the crosschain mark
/// where it settles on another.
pub open spec fn spec_map_crosschain(nonce: Nonce, chain: Blockchain, asset: Asset) -> Nonce {
    if asset.spec_blockchain() == chain {
        nonce
    } else {
        Nonce::Crosschain
    }
}

/// If an asset is on another chain, convert its nonce into the crosschain
/// nonce. For a nonce from a pool the result is the crosschain mark if and
/// only if the asset's own chain is not `chain`; otherwise it is the pooled
/// value.
#[verifier::when_used_as_spec(spec_map_crosschain)]
pub fn map_crosschain(nonce: Nonce, chain: Blockchain, asset: Asset) -> (r: Nonce)
    ensures
        r == spec_map_crosschain(nonce, chain, asset),
        nonce is Value ==> (r is Crosschain <==> asset.spec_blockchain() != chain),
        asset.spec_blockchain() == chain ==> r == nonce,
{
    if asset.blockchain() == chain {
        nonce
    } else {
        Nonce::Crosschain
    }
}

/// The low 32 bits of a time: the nonce of an order made at that time.
pub open spec fn spec_order_nonce(time: i64) -> u32 {
    (time as int % 0x1_0000_0000) as u32
}

/// The nonce of an order made at `time`: the time, cut to 32 bits.
#[verifier::when_used_as_spec(spec_order_nonce)]
pub fn order_nonce(time: i64) -> (r: u32)
    ensures
        r == spec_order_nonce(time),
{
    let r: u32 = #[verifier::truncate]
    (time as u32);
    assert(r == (time as int % 0x1_0000_0000) as u32) by (bit_vector)
        requires
            r == time as u32,
    ;
    r
}

/// How a nonce of the asset given and a nonce of the asset received are
/// combined with the nonce of the order.
pub open spec fn nonce_combination(order: u32) -> spec_fn(u32, u32) -> PayloadNonces {
    |from: u32, to: u32|
        PayloadNonces {
            nonce_from: Nonce::Value(from),
            nonce_to: Nonce::Value(to),
            order_nonce: Nonce::Value(order),
        }
}

/// A request for a limit order: buy or sell `amount` of the first asset of
/// `market` at `price`, counted in the second.
#[derive(Debug, PartialEq)]
pub struct LimitOrderRequest {
    pub client_order_id: Option<String>,
    pub market: String,
    pub buy_or_sell: BuyOrSell,
    pub amount: String,
    pub price: String,
    pub cancellation_policy: OrderCancellationPolicy,
    pub allow_taker: bool,
}

/// The builder of a limit order: the market as it was resolved, the amounts
/// as they were read, and the policies of the request.
#[derive(Debug, PartialEq)]
pub struct LimitOrderConstructor {
    pub client_order_id: Option<String>,
    /// The amount as the matching engine counts it: in the first asset.
    pub me_amount: AssetAmount,
    /// The price as the matching engine counts it: in the second asset.
    pub me_rate: OrderRate,
    pub market: Market,
    pub buy_or_sell: BuyOrSell,
    pub cancellation_policy: OrderCancellationPolicy,
    pub allow_taker: bool,
    /// What is given.
    pub source: AssetAmount,
    /// What is received.
    pub destination: AssetOfPrecision,
}

} // verus!

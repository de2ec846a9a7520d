//! The requests to place orders, and the builders that they are turned into.

use vstd::prelude::*;
use crate::canonical::json::JsonField;
use crate::graphql::place_market_order;
use crate::protocol::signature::{ChainSignature, RequestPayloadSignature};
use crate::protocol::place_order::types::{LimitOrderConstructor, LimitOrderRequest};
use crate::types::amount::AssetAmount;
use crate::types::asset::AssetOfPrecision;
use crate::types::market::Market;

verus! {

/// A copy of a text that may be absent.
pub fn clone_text(text: &Option<String>) -> (r: Option<String>)
    ensures
        r == *text,
{
    match text {
        Some(s) => Some(s.clone()),
        None => None,
    }
}

/// The form in which a batch of operations is sent: the text of the query,
/// the name of the operation, and the values of the variables that the
/// query declares, each under its name.
#[derive(Debug, PartialEq)]
pub struct MultiQueryBody {
    /// The values for the variables. They match those declared in the query.
    pub variables: Vec<JsonField>,
    /// The GraphQL query, as a string.
    pub query: String,
    /// The GraphQL operation name, as a string.
    pub operation_name: &'static str,
}

/// The form in which a market order is sent.
#[derive(Debug, PartialEq)]
pub struct MarketOrderMutation {
    pub variables: place_market_order::Variables,
    pub query: &'static str,
    pub operation_name: &'static str,
}

/// What the signers returned for one order of a batch: the signatures of
/// its settlement structures, in the order of the structures, and the
/// signature over its canonical string.
#[derive(Debug, PartialEq)]
pub struct OrderSignatures {
    pub blockchain: Vec<ChainSignature>,
    pub request: RequestPayloadSignature,
}

/// A batch of requests for limit orders.
#[derive(Debug, PartialEq)]
pub struct LimitOrdersRequest {
    pub requests: Vec<LimitOrderRequest>,
}

/// The builders of a batch of limit orders, one for each request and in the
/// order of the requests.
#[derive(Debug, PartialEq)]
pub struct LimitOrdersConstructor {
    pub constructors: Vec<LimitOrderConstructor>,
}

/// A request to sell `amount` of the first asset of `market` at the price of
/// the market.
#[derive(Debug, PartialEq)]
pub struct MarketOrdersRequest {
    pub client_order_id: Option<String>,
    pub market: String,
    pub amount: String,
}

/// The builder of a market order: the market as it was resolved and the
/// amounts as they were read. It is made for one request and embeds the
/// market and amount of that request.
#[derive(Debug, PartialEq)]
pub struct MarketOrderConstructor {
    pub client_order_id: Option<String>,
    /// The amount as the matching engine counts it.
    pub me_amount: AssetAmount,
    pub market: Market,
    /// What is given.
    pub source: AssetAmount,
    /// What is received.
    pub destination: AssetOfPrecision,
}

impl Clone for MarketOrderConstructor {
    fn clone(&self) -> (r: Self)
        ensures
            r == *self,
    {
        MarketOrderConstructor {
            client_order_id: clone_text(&self.client_order_id),
            me_amount: self.me_amount,
            market: self.market,
            source: self.source,
            destination: self.destination,
        }
    }
}

} // verus!

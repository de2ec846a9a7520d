//! From the request for a limit order to its builder, and from the builder
//! to what is signed.

use vstd::prelude::*;
use crate::errors::ProtocolError;
use crate::protocol::place_order::blockchain::FillOrder;
use crate::protocol::place_order::types::{
    nonce_combination,
    order_nonce,
    spec_order_nonce,
    LimitOrderConstructor,
    LimitOrderRequest,
    PayloadNonces,
};
use crate::protocol::place_orders::request::{spec_fill_order, spec_fill_orders};
use crate::protocol::place_orders::request::are_blockchain_signatures;
use crate::protocol::place_orders::types::{clone_text, MarketOrderConstructor};
use crate::protocol::signature::{BlockchainSignature, ChainSignature};
use crate::state::{resolve_market_spec, State};
use crate::types::amount::AssetAmount;
use crate::types::asset::{AssetOfPrecision, Blockchain};
use crate::types::keys::{PublicKey, SignerKeys};
use crate::types::market::Market;
use crate::types::nonce::Nonce;
use crate::types::order::{BuyOrSell, OrderRate};

verus! {

/// The builder that a request for a limit order gives with the markets
/// `markets`. The amount is counted in the first asset of the resolved
/// market and the price in the second. A sale gives the amount and receives
/// the second asset; a purchase gives what the amount costs at the price, in
/// the second asset, and receives the first.
pub open spec fn spec_limit_order_constructor(
    request: LimitOrderRequest,
    markets: Seq<Market>,
) -> Result<LimitOrderConstructor, ProtocolError> {
    match resolve_market_spec(markets, request.market@) {
        Err(e) => Err(e),
        Ok(market) => match market.asset_a.spec_with_amount(request.amount@) {
            Err(e) => Err(e),
            Ok(me_amount) => match market.asset_b.spec_with_amount(request.price@) {
                Err(e) => Err(e),
                Ok(price) => {
                    let me_rate = OrderRate { inner: price.amount };
                    match request.buy_or_sell {
                        BuyOrSell::Sell => Ok(
                            LimitOrderConstructor {
                                client_order_id: request.client_order_id,
                                me_amount,
                                me_rate,
                                market,
                                buy_or_sell: request.buy_or_sell,
                                cancellation_policy: request.cancellation_policy,
                                allow_taker: request.allow_taker,
                                source: me_amount,
                                destination: market.asset_b,
                            },
                        ),
                        BuyOrSell::Buy => match me_amount.spec_exchange_at(me_rate, market.asset_b) {
                            Err(e) => Err(e),
                            Ok(source) => Ok(
                                LimitOrderConstructor {
                                    client_order_id: request.client_order_id,
                                    me_amount,
                                    me_rate,
                                    market,
                                    buy_or_sell: request.buy_or_sell,
                                    cancellation_policy: request.cancellation_policy,
                                    allow_taker: request.allow_taker,
                                    source,
                                    destination: market.asset_a,
                                },
                            ),
                        },
                    }
                },
            },
        },
    }
}

/// The nonces of a limit order that gives `source` and receives
/// `destination`, made at `time`: the first nonce of the pool of each
/// asset, with the nonce of an order made at that time. A pool that is
/// missing or empty ends the construction.
pub open spec fn spec_limit_payload_nonces(
    source: AssetAmount,
    destination: AssetOfPrecision,
    state: State,
    time: i64,
) -> Result<PayloadNonces, ProtocolError> {
    match state.spec_asset_nonce_pool(source.asset.asset) {
        None => Err(ProtocolError::MissingNoncePool),
        Some(from) => match state.spec_asset_nonce_pool(destination.asset) {
            None => Err(ProtocolError::MissingNoncePool),
            Some(to) => if from.len() > 0 && to.len() > 0 {
                Ok(nonce_combination(spec_order_nonce(time))(from[0], to[0]))
            } else {
                Err(ProtocolError::MissingNoncePool)
            },
        },
    }
}

impl LimitOrderRequest {
    /// Buy or sell `amount` of `A` in price of `B` for an A/B market.
    /// Returns the builder from which settlement structures and payloads are
    /// made. The market may be asked for under its reversed name: it is then
    /// inverted, and amount and price are read in the inverted market.
    pub fn make_constructor(&self, state: &State) -> (r: Result<
        LimitOrderConstructor,
        ProtocolError,
    >)
        ensures
            r == spec_limit_order_constructor(*self, state.markets@),
    {
        let market: Market = match state.resolve_market(self.market.as_str()) {
            Ok(market) => market,
            Err(e) => {
                return Err(e);
            },
        };
        let me_amount: AssetAmount = match market.asset_a.with_amount(self.amount.as_str()) {
            Ok(amount) => amount,
            Err(e) => {
                return Err(e);
            },
        };
        let price: AssetAmount = match market.asset_b.with_amount(self.price.as_str()) {
            Ok(price) => price,
            Err(e) => {
                return Err(e);
            },
        };
        let me_rate: OrderRate = OrderRate { inner: price.amount };
        let (source, destination): (AssetAmount, AssetOfPrecision) = match self.buy_or_sell {
            BuyOrSell::Sell => (me_amount, market.asset_b),
            BuyOrSell::Buy => match me_amount.exchange_at(&me_rate, market.asset_b) {
                Ok(source) => (source, market.asset_a),
                Err(e) => {
                    return Err(e);
                },
            },
        };
        Ok(
            LimitOrderConstructor {
                client_order_id: clone_text(&self.client_order_id),
                me_amount,
                me_rate,
                market,
                buy_or_sell: self.buy_or_sell,
                cancellation_policy: self.cancellation_policy,
                allow_taker: self.allow_taker,
                source,
                destination,
            },
        )
    }
}

impl LimitOrderConstructor {
    /// What the order settles: the market, what is given and what is
    /// received.
    pub open spec fn spec_settlement(&self) -> MarketOrderConstructor {
        MarketOrderConstructor {
            client_order_id: self.client_order_id,
            me_amount: self.me_amount,
            market: self.market,
            source: self.source,
            destination: self.destination,
        }
    }

    /// What the order settles. Settlement structures are made from this as
    /// they are for a market order: the limit of the order is held by the
    /// exchange, not by the chain.
    pub fn settlement(&self) -> (r: MarketOrderConstructor)
        ensures
            r == self.spec_settlement(),
    {
        MarketOrderConstructor {
            client_order_id: clone_text(&self.client_order_id),
            me_amount: self.me_amount,
            market: self.market,
            source: self.source,
            destination: self.destination,
        }
    }

    /// The nonces of this order at `current_time`: one fixed combination,
    /// the first nonce of the pool of the asset given with the first of the
    /// pool of the asset received, as they stand in `state`.
    pub fn make_payload_nonces(&self, state: &State, current_time: i64) -> (r: Result<
        PayloadNonces,
        ProtocolError,
    >)
        ensures
            r == spec_limit_payload_nonces(self.source, self.destination, *state, current_time),
    {
        let nonce_froms: &Vec<u32> = match state.asset_nonce_pool(self.source.asset.asset) {
            Ok(pool) => pool,
            Err(e) => {
                return Err(e);
            },
        };
        let nonce_tos: &Vec<u32> = match state.asset_nonce_pool(self.destination.asset) {
            Ok(pool) => pool,
            Err(e) => {
                return Err(e);
            },
        };
        if nonce_froms.len() == 0 || nonce_tos.len() == 0 {
            return Err(ProtocolError::MissingNoncePool);
        }
        Ok(
            PayloadNonces {
                nonce_from: Nonce::Value(nonce_froms[0]),
                nonce_to: Nonce::Value(nonce_tos[0]),
                order_nonce: Nonce::Value(order_nonce(current_time)),
            },
        )
    }

    /// The settlement structure of this order for one blockchain.
    pub fn make_fill_order(&self, chain: Blockchain, pub_key: &PublicKey, nonces: &PayloadNonces) -> (r:
        Result<FillOrder, ProtocolError>)
        ensures
            r == spec_fill_order(self.source, self.destination, chain, *pub_key, *nonces),
    {
        self.settlement().make_fill_order(chain, pub_key, nonces)
    }

    /// The settlement structures that are to be signed for this order: one
    /// for every blockchain of the market.
    pub fn fill_orders(&self, signer: &SignerKeys, nonces: &PayloadNonces) -> (r: Result<
        Vec<FillOrder>,
        ProtocolError,
    >)
        ensures
            match r {
                Ok(orders) => spec_fill_orders(
                    self.market,
                    self.source,
                    self.destination,
                    *signer,
                    seq![*nonces],
                ) == Ok::<Seq<FillOrder>, ProtocolError>(orders@) && orders@.len()
                    == self.market.spec_blockchains().len(),
                Err(e) => spec_fill_orders(
                    self.market,
                    self.source,
                    self.destination,
                    *signer,
                    seq![*nonces],
                ) == Err::<Seq<FillOrder>, ProtocolError>(e),
            },
    {
        let mut combinations: Vec<PayloadNonces> = Vec::new();
        combinations.push(*nonces);
        proof {
            assert(combinations@ =~= seq![*nonces]);
        }
        let r = self.settlement().fill_orders(signer, combinations.as_slice());
        proof {
            let chains = self.market.spec_blockchains().len();
            assert(chains * 1 == chains) by (nonlinear_arith);
        }
        r
    }

    /// The entries of the payload that carry the signatures of the
    /// settlement structures of this order, one for every blockchain of the
    /// market. `signed` holds what the signers returned for the structures
    /// that `fill_orders` lists, in the same order.
    pub fn blockchain_signatures(
        &self,
        signer: &SignerKeys,
        nonces: &PayloadNonces,
        signed: &[ChainSignature],
    ) -> (r: Result<Vec<BlockchainSignature>, ProtocolError>)
        ensures
            match r {
                Ok(signatures) => {
                    &&& spec_fill_orders(
                        self.market,
                        self.source,
                        self.destination,
                        *signer,
                        seq![*nonces],
                    ) is Ok
                    &&& are_blockchain_signatures(
                        signatures@,
                        spec_fill_orders(
                            self.market,
                            self.source,
                            self.destination,
                            *signer,
                            seq![*nonces],
                        )->Ok_0,
                        *signer,
                        signed@,
                    )
                    &&& signatures@.len() == self.market.spec_blockchains().len()
                },
                Err(e) => match spec_fill_orders(
                    self.market,
                    self.source,
                    self.destination,
                    *signer,
                    seq![*nonces],
                ) {
                    Err(failure) => e == failure,
                    Ok(orders) => orders.len() != signed@.len() && e
                        == ProtocolError::SigningUnavailable,
                },
            },
    {
        let mut combinations: Vec<PayloadNonces> = Vec::new();
        combinations.push(*nonces);
        proof {
            assert(combinations@ =~= seq![*nonces]);
        }
        let r = self.settlement().blockchain_signatures(signer, combinations.as_slice(), signed);
        proof {
            let chains = self.market.spec_blockchains().len();
            assert(chains * 1 == chains) by (nonlinear_arith);
        }
        r
    }
}

} // verus!

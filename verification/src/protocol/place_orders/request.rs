//! From a request to the builder of an order, and from the builder to what
//! is signed and sent.

use vstd::prelude::*;
use crate::errors::ProtocolError;
use vstd::string::*;
use crate::graphql::{optional_text, place_limit_order, place_market_order};
use crate::protocol::place_order::request::{
    spec_limit_order_constructor,
    spec_limit_payload_nonces,
};
use crate::protocol::place_order::types::{LimitOrderConstructor, LimitOrderRequest};
use crate::protocol::place_orders::batch::{is_batch, multi_query_body};
use crate::text::{i64_to_text, signed_decimal_text};
use crate::product::{lemma_product_grows, lemma_product_len, lemma_product_place, product, row};
use crate::protocol::place_order::blockchain::{btc, eth, neo, FillOrder};
use crate::protocol::place_order::types::{
    map_crosschain,
    nonce_combination,
    order_nonce,
    spec_map_crosschain,
    spec_order_nonce,
    PayloadNonces,
};
use crate::protocol::place_orders::types::{
    clone_text,
    LimitOrdersConstructor,
    LimitOrdersRequest,
    MarketOrderConstructor,
    MarketOrderMutation,
    MarketOrdersRequest,
    MultiQueryBody,
    OrderSignatures,
};
use crate::protocol::signature::{BlockchainSignature, ChainSignature, RequestPayloadSignature};
use crate::types::order::BuyOrSell;
use crate::state::{resolve_market_spec, State};
use crate::types::amount::{Amount, AssetAmount};
use crate::types::asset::{AssetOfPrecision, Blockchain};
use crate::types::keys::{PublicKey, SignerKeys};
use crate::types::market::Market;
use crate::types::nonce::Nonce;
use crate::types::order::Rate;

verus! {

/// The builder that a request for a market order gives with the markets
/// `markets`.
pub open spec fn spec_market_order_constructor(
    request: MarketOrdersRequest,
    markets: Seq<Market>,
) -> Result<MarketOrderConstructor, ProtocolError> {
    match resolve_market_spec(markets, request.market@) {
        Err(e) => Err(e),
        Ok(market) => match market.asset_a.spec_with_amount(request.amount@) {
            Err(e) => Err(e),
            Ok(source) => Ok(
                MarketOrderConstructor {
                    client_order_id: request.client_order_id,
                    me_amount: source,
                    market,
                    source,
                    destination: market.asset_b,
                },
            ),
        },
    }
}

impl MarketOrdersRequest {
    /// Sell `amount` of `A` at the price of an A/B market. Returns the
    /// builder from which settlement structures and payloads are made. The
    /// market may be asked for under its reversed name: it is then inverted,
    /// so that what is sold is the asset named first in the request.
    pub fn make_constructor(&self, state: &State) -> (r: Result<
        MarketOrderConstructor,
        ProtocolError,
    >)
        ensures
            r == spec_market_order_constructor(*self, state.markets@),
    {
        let market: Market = match state.resolve_market(self.market.as_str()) {
            Ok(market) => market,
            Err(e) => {
                return Err(e);
            },
        };
        let source: AssetAmount = match market.asset_a.with_amount(self.amount.as_str()) {
            Ok(source) => source,
            Err(e) => {
                return Err(e);
            },
        };
        let destination: AssetOfPrecision = market.asset_b;
        Ok(
            MarketOrderConstructor {
                client_order_id: clone_text(&self.client_order_id),
                me_amount: source,
                market,
                source,
                destination,
            },
        )
    }
}

/// The settlement structure for `chain` of a trade that gives `source` and
/// receives `destination`, signed with `key` and with the nonces `nonces`.
///
/// Both asset nonces are replaced by the crosschain mark where the asset
/// settles on another chain. On Ethereum and NEO the structure carries the
/// assets, the amount in the asset given, and the order nonce; the lowest
/// and the highest rate stand for "no bound", and the lowest rate as fee for
/// "no fee": the exchange enforces the user's own limit, the chain does not.
/// Ethereum takes the address of the key, NEO the key on its own curve, and
/// each refuses a key of another kind. Bitcoin takes the two nonces only.
pub open spec fn spec_fill_order(
    source: AssetAmount,
    destination: AssetOfPrecision,
    chain: Blockchain,
    key: PublicKey,
    nonces: PayloadNonces,
) -> Result<FillOrder, ProtocolError> {
    let asset_nonce_from = spec_map_crosschain(nonces.nonce_from, chain, source.asset.asset);
    let asset_nonce_to = spec_map_crosschain(nonces.nonce_to, chain, destination.asset);
    match chain {
        Blockchain::Ethereum => match key {
            PublicKey::Ethereum(key) => Ok(
                FillOrder::Ethereum(
                    eth::FillOrder {
                        address: key.spec_address(),
                        asset_from: source.asset.asset,
                        asset_to: destination.asset,
                        asset_nonce_from,
                        asset_nonce_to,
                        amount: source.amount,
                        min_order: Rate::MinOrderRate,
                        max_order: Rate::MaxOrderRate,
                        fee_rate: Rate::MinOrderRate,
                        order_nonce: nonces.order_nonce,
                    },
                ),
            ),
            _ => Err(ProtocolError::KeyConversionFailure),
        },
        Blockchain::Bitcoin => Ok(
            FillOrder::Bitcoin(btc::FillOrder { asset_nonce_from, asset_nonce_to }),
        ),
        Blockchain::NEO => match key {
            PublicKey::NEO(key) => Ok(
                FillOrder::NEO(
                    neo::FillOrder {
                        public_key: key,
                        asset_from: source.asset.asset,
                        asset_to: destination.asset,
                        asset_nonce_from,
                        asset_nonce_to,
                        amount: source.amount,
                        min_order: Rate::MinOrderRate,
                        max_order: Rate::MaxOrderRate,
                        fee_rate: Rate::MinOrderRate,
                        order_nonce: nonces.order_nonce,
                    },
                ),
            ),
            _ => Err(ProtocolError::KeyConversionFailure),
        },
    }
}

/// The session holds a key for every one of `chains`.
pub open spec fn keys_available(signer: SignerKeys, chains: Seq<Blockchain>) -> bool {
    forall|i: int| 0 <= i < chains.len() ==> signer.spec_child_public_key(#[trigger] chains[i]) is Ok
}

/// The settlement structure of a trade for a blockchain and a combination of
/// nonces, signed with the session's key for that blockchain.
pub open spec fn fill_order_of(
    source: AssetAmount,
    destination: AssetOfPrecision,
    signer: SignerKeys,
) -> spec_fn(Blockchain, PayloadNonces) -> FillOrder {
    |chain: Blockchain, nonces: PayloadNonces|
        spec_fill_order(
            source,
            destination,
            chain,
            signer.spec_child_public_key(chain)->Ok_0,
            nonces,
        )->Ok_0
}

/// The settlement structures of a trade on `market`: one for every
/// blockchain of the market and every combination of nonces, blockchain by
/// blockchain. None are made unless the session holds a key for every
/// blockchain of the market.
pub open spec fn spec_fill_orders(
    market: Market,
    source: AssetAmount,
    destination: AssetOfPrecision,
    signer: SignerKeys,
    nonces: Seq<PayloadNonces>,
) -> Result<Seq<FillOrder>, ProtocolError> {
    if keys_available(signer, market.spec_blockchains()) {
        Ok(product(market.spec_blockchains(), nonces, fill_order_of(source, destination, signer)))
    } else {
        Err(ProtocolError::SigningUnavailable)
    }
}

/// The combinations of nonces for a trade on `market` at `time`: every nonce
/// of the pool of the first asset with every nonce of the pool of the
/// second, each with the nonce of an order made at `time`.
pub open spec fn spec_payload_nonces(market: Market, state: State, time: i64) -> Result<
    Seq<PayloadNonces>,
    ProtocolError,
> {
    match state.spec_asset_nonce_pool(market.asset_a.asset) {
        None => Err(ProtocolError::MissingNoncePool),
        Some(from) => match state.spec_asset_nonce_pool(market.asset_b.asset) {
            None => Err(ProtocolError::MissingNoncePool),
            Some(to) => Ok(product(from, to, nonce_combination(spec_order_nonce(time)))),
        },
    }
}

/// The expansion of the nonce pools holds every pair of a nonce of the first
/// pool with a nonce of the second exactly once. It has as many
/// combinations as there are pairs; the pair of the nonce at place `i` of
/// the first pool with the nonce at place `j` of the second stands at place
/// `i * |to| + j`; and no other place holds the pair of these two places.
pub proof fn lemma_payload_nonces_hold_every_pair_once(
    market: Market,
    state: State,
    time: i64,
    i: int,
    j: int,
    k: int,
)
    requires
        spec_payload_nonces(market, state, time) is Ok,
        0 <= i < state.spec_asset_nonce_pool(market.asset_a.asset)->Some_0.len(),
        0 <= j < state.spec_asset_nonce_pool(market.asset_b.asset)->Some_0.len(),
        0 <= k < spec_payload_nonces(market, state, time)->Ok_0.len(),
    ensures
        ({
            let from = state.spec_asset_nonce_pool(market.asset_a.asset)->Some_0;
            let to = state.spec_asset_nonce_pool(market.asset_b.asset)->Some_0;
            let combinations = spec_payload_nonces(market, state, time)->Ok_0;
            &&& combinations.len() == from.len() * to.len()
            &&& 0 <= i * to.len() + j < combinations.len()
            &&& combinations[i * to.len() + j] == nonce_combination(spec_order_nonce(time))(
                from[i],
                to[j],
            )
            &&& 0 <= k / (to.len() as int) < from.len()
            &&& combinations[k] == nonce_combination(spec_order_nonce(time))(
                from[k / (to.len() as int)],
                to[k % (to.len() as int)],
            )
            &&& (k / (to.len() as int) == i && k % (to.len() as int) == j) <==> k == i * to.len()
                + j
        }),
{
    let from = state.spec_asset_nonce_pool(market.asset_a.asset)->Some_0;
    let to = state.spec_asset_nonce_pool(market.asset_b.asset)->Some_0;
    let f = nonce_combination(spec_order_nonce(time));
    lemma_product_len(from, to, f);
    crate::product::lemma_product_index(from, to, f, i, j);
    lemma_product_place(from, to, f, k);
    let m = to.len() as int;
    if k == i * m + j {
        crate::product::lemma_place_tells_pair(m, k / m, k % m, i, j);
    }
}

/// With the session's own key for a blockchain, the settlement structure for
/// that blockchain can always be made, and it is one for that blockchain.
pub proof fn lemma_own_key_fits(
    source: AssetAmount,
    destination: AssetOfPrecision,
    signer: SignerKeys,
    chain: Blockchain,
    nonces: PayloadNonces,
)
    requires
        signer.spec_child_public_key(chain) is Ok,
    ensures
        spec_fill_order(
            source,
            destination,
            chain,
            signer.spec_child_public_key(chain)->Ok_0,
            nonces,
        ) is Ok,
        fill_order_of(source, destination, signer)(chain, nonces).spec_blockchain() == chain,
{
}

impl MarketOrderConstructor {
    /// The settlement structure of this order for one blockchain and one
    /// combination of nonces.
    pub fn make_fill_order(
        &self,
        chain: Blockchain,
        pub_key: &PublicKey,
        nonces: &PayloadNonces,
    ) -> (r: Result<FillOrder, ProtocolError>)
        ensures
            r == spec_fill_order(self.source, self.destination, chain, *pub_key, *nonces),
            r is Ok ==> r->Ok_0.spec_blockchain() == chain,
            r is Ok <==> (chain == Blockchain::Bitcoin || pub_key.spec_blockchain() == chain),
            r is Err ==> r->Err_0 == ProtocolError::KeyConversionFailure,
    {
        // Rate is in "dest per source", so a higher rate is always beneficial to a user.
        // The exchange holds the order to the user's limit; the chain is given no bound.
        let min_order: Rate = Rate::MinOrderRate;
        let max_order: Rate = Rate::MaxOrderRate;
        // Amount is specified in the "source" asset
        let amount: Amount = self.source.amount;
        let fee_rate: Rate = Rate::MinOrderRate;
        let asset_nonce_from: Nonce = map_crosschain(
            nonces.nonce_from,
            chain,
            self.source.asset.asset,
        );
        let asset_nonce_to: Nonce = map_crosschain(nonces.nonce_to, chain, self.destination.asset);

        match chain {
            Blockchain::Ethereum => {
                let address = match pub_key.to_address() {
                    Ok(address) => address,
                    Err(e) => {
                        return Err(e);
                    },
                };
                let address = match address.to_ethereum() {
                    Ok(address) => address,
                    Err(e) => {
                        return Err(e);
                    },
                };
                Ok(
                    FillOrder::Ethereum(
                        eth::FillOrder::new(
                            address,
                            self.source.asset.asset,
                            self.destination.asset,
                            asset_nonce_from,
                            asset_nonce_to,
                            amount,
                            min_order,
                            max_order,
                            fee_rate,
                            nonces.order_nonce,
                        ),
                    ),
                )
            },
            Blockchain::Bitcoin => Ok(
                FillOrder::Bitcoin(btc::FillOrder::new(asset_nonce_from, asset_nonce_to)),
            ),
            Blockchain::NEO => {
                let neo_pub_key = match pub_key.to_neo() {
                    Ok(key) => key,
                    Err(e) => {
                        return Err(e);
                    },
                };
                let neo_order = neo::FillOrder::new(
                    neo_pub_key,
                    self.source.asset.asset,
                    self.destination.asset,
                    asset_nonce_from,
                    asset_nonce_to,
                    amount,
                    min_order,
                    max_order,
                    fee_rate,
                    nonces.order_nonce,
                );
                Ok(FillOrder::NEO(neo_order))
            },
        }
    }

    /// The settlement structures that are to be signed for this order: one
    /// for every blockchain of the market and every combination of nonces,
    /// blockchain by blockchain and, for each, in the order of `nonces`.
    pub fn fill_orders(&self, signer: &SignerKeys, nonces: &[PayloadNonces]) -> (r: Result<
        Vec<FillOrder>,
        ProtocolError,
    >)
        ensures
            match r {
                Ok(orders) => spec_fill_orders(
                    self.market,
                    self.source,
                    self.destination,
                    *signer,
                    nonces@,
                ) == Ok::<Seq<FillOrder>, ProtocolError>(orders@) && orders@.len()
                    == self.market.spec_blockchains().len() * nonces@.len(),
                Err(e) => spec_fill_orders(
                    self.market,
                    self.source,
                    self.destination,
                    *signer,
                    nonces@,
                ) == Err::<Seq<FillOrder>, ProtocolError>(e),
            },
    {
        let mut orders: Vec<FillOrder> = Vec::new();
        let blockchains: Vec<Blockchain> = self.market.blockchains();
        let ghost f = fill_order_of(self.source, self.destination, *signer);
        let mut i: usize = 0;
        proof {
            assert(blockchains@.subrange(0, 0) =~= Seq::<Blockchain>::empty());
        }
        while i < blockchains.len()
            invariant
                i <= blockchains.len(),
                blockchains@ == self.market.spec_blockchains(),
                f == fill_order_of(self.source, self.destination, *signer),
                forall|c: int| 0 <= c < i ==> signer.spec_child_public_key(blockchains@[c]) is Ok,
                orders@ == product(blockchains@.subrange(0, i as int), nonces@, f),
            decreases blockchains.len() - i,
        {
            let blockchain: Blockchain = blockchains[i];
            let pub_key: PublicKey = match signer.child_public_key(blockchain) {
                Ok(key) => key,
                Err(e) => {
                    return Err(e);
                },
            };
            let mut j: usize = 0;
            proof {
                assert(orders@ + row(blockchain, nonces@, f).subrange(0, 0) =~= orders@);
            }
            while j < nonces.len()
                invariant
                    j <= nonces.len(),
                    i < blockchains.len(),
                    blockchain == blockchains@[i as int],
                    f == fill_order_of(self.source, self.destination, *signer),
                    signer.spec_child_public_key(blockchain) == Ok::<PublicKey, ProtocolError>(
                        pub_key,
                    ),
                    orders@ == product(blockchains@.subrange(0, i as int), nonces@, f) + row(
                        blockchain,
                        nonces@,
                        f,
                    ).subrange(0, j as int),
                decreases nonces.len() - j,
            {
                let nonce_group: &PayloadNonces = &nonces[j];
                let fill_order: FillOrder = match self.make_fill_order(
                    blockchain,
                    &pub_key,
                    nonce_group,
                ) {
                    Ok(order) => order,
                    Err(e) => {
                        return Err(e);
                    },
                };
                proof {
                    assert(fill_order == f(blockchain, nonces@[j as int]));
                    lemma_product_grows(blockchains@, nonces@, f, i as int, j as int);
                }
                orders.push(fill_order);
                j = j + 1;
            }
            proof {
                if nonces.len() > 0 {
                    lemma_product_grows(blockchains@, nonces@, f, i as int, 0);
                } else {
                    let next = blockchains@.subrange(0, i + 1);
                    assert(next.drop_last() =~= blockchains@.subrange(0, i as int));
                    assert(row(next.last(), nonces@, f) =~= Seq::<FillOrder>::empty());
                    assert(row(blockchain, nonces@, f).subrange(0, 0) =~= Seq::<
                        FillOrder,
                    >::empty());
                    assert(orders@ =~= product(next, nonces@, f));
                }
            }
            i = i + 1;
        }
        proof {
            assert(blockchains@.subrange(0, i as int) =~= blockchains@);
            lemma_product_len(blockchains@, nonces@, f);
        }
        Ok(orders)
    }

    /// The combinations of nonces for this order at `current_time`: every
    /// nonce of the pool of the asset given with every nonce of the pool of
    /// the asset received, as they stand in `state`, row by row. Either pool
    /// missing ends the construction.
    pub fn make_payload_nonces(&self, state: &State, current_time: i64) -> (r: Result<
        Vec<PayloadNonces>,
        ProtocolError,
    >)
        ensures
            match r {
                Ok(combinations) => spec_payload_nonces(self.market, *state, current_time) == Ok::<
                    Seq<PayloadNonces>,
                    ProtocolError,
                >(combinations@),
                Err(e) => spec_payload_nonces(self.market, *state, current_time) == Err::<
                    Seq<PayloadNonces>,
                    ProtocolError,
                >(e),
            },
    {
        let nonce_froms: &Vec<u32> = match state.asset_nonce_pool(self.market.asset_a.asset) {
            Ok(pool) => pool,
            Err(e) => {
                return Err(e);
            },
        };
        let nonce_tos: &Vec<u32> = match state.asset_nonce_pool(self.market.asset_b.asset) {
            Ok(pool) => pool,
            Err(e) => {
                return Err(e);
            },
        };
        let order: u32 = order_nonce(current_time);
        let ghost f = nonce_combination(order);
        let mut nonce_combinations: Vec<PayloadNonces> = Vec::new();
        let mut i: usize = 0;
        proof {
            assert(nonce_froms@.subrange(0, 0) =~= Seq::<u32>::empty());
        }
        while i < nonce_froms.len()
            invariant
                i <= nonce_froms.len(),
                f == nonce_combination(order),
                nonce_combinations@ == product(nonce_froms@.subrange(0, i as int), nonce_tos@, f),
            decreases nonce_froms.len() - i,
        {
            let nonce_from: u32 = nonce_froms[i];
            let mut j: usize = 0;
            proof {
                assert(nonce_combinations@ + row(nonce_from, nonce_tos@, f).subrange(0, 0)
                    =~= nonce_combinations@);
            }
            while j < nonce_tos.len()
                invariant
                    j <= nonce_tos.len(),
                    i < nonce_froms.len(),
                    nonce_from == nonce_froms@[i as int],
                    f == nonce_combination(order),
                    nonce_combinations@ == product(
                        nonce_froms@.subrange(0, i as int),
                        nonce_tos@,
                        f,
                    ) + row(nonce_from, nonce_tos@, f).subrange(0, j as int),
                decreases nonce_tos.len() - j,
            {
                let nonce_to: u32 = nonce_tos[j];
                proof {
                    lemma_product_grows(nonce_froms@, nonce_tos@, f, i as int, j as int);
                }
                nonce_combinations.push(
                    PayloadNonces {
                        nonce_from: Nonce::Value(nonce_from),
                        nonce_to: Nonce::Value(nonce_to),
                        order_nonce: Nonce::Value(order),
                    },
                );
                j = j + 1;
            }
            proof {
                if nonce_tos.len() > 0 {
                    lemma_product_grows(nonce_froms@, nonce_tos@, f, i as int, 0);
                } else {
                    let next = nonce_froms@.subrange(0, i + 1);
                    assert(next.drop_last() =~= nonce_froms@.subrange(0, i as int));
                    assert(row(next.last(), nonce_tos@, f) =~= Seq::<PayloadNonces>::empty());
                    assert(row(nonce_from, nonce_tos@, f).subrange(0, 0) =~= Seq::<
                        PayloadNonces,
                    >::empty());
                    assert(nonce_combinations@ =~= product(next, nonce_tos@, f));
                }
            }
            i = i + 1;
        }
        proof {
            assert(nonce_froms@.subrange(0, i as int) =~= nonce_froms@);
        }
        Ok(nonce_combinations)
    }
}

/// `signatures` are the entries of a payload for the settlement structures
/// `orders`: one for each, in their order, each with the session's key for
/// the structure's blockchain and the signature at the same place in
/// `signed`.
pub open spec fn are_blockchain_signatures(
    signatures: Seq<BlockchainSignature>,
    orders: Seq<FillOrder>,
    signer: SignerKeys,
    signed: Seq<ChainSignature>,
) -> bool {
    &&& signatures.len() == orders.len()
    &&& signed.len() == orders.len()
    &&& forall|k: int|
        0 <= k < signatures.len() ==> (#[trigger] signatures[k]).is_for(
            orders[k],
            signer.spec_child_public_key(orders[k].spec_blockchain())->Ok_0,
            signed[k],
        )
}

/// The text of the operation that places a market order.
pub open spec fn market_order_query() -> Seq<char> {
    "mutation PlaceMarketOrder($payload: PlaceMarketOrderParams!, $signature: Signature!, $affiliate: AffiliateDeveloperCode) {\n    placeMarketOrder(payload: $payload, signature: $signature, affiliateDeveloperCode: $affiliate) {\n        id\n        status\n        ordersTillSignState\n        buyOrSell\n        market {\n            name\n        }\n        placedAt\n        type\n    }\n}\n"@
}

/// Whether `payload` carries the fields of the market order that `order`
/// builds at `current_time`, whatever signatures it holds: it sells, names
/// the market and the amount, carries the nonce of an order made at
/// `current_time` and that time itself, and zero for the two nonces that are
/// no longer read.
pub open spec fn has_market_order_fields(
    payload: place_market_order::PlaceMarketOrderParams,
    order: MarketOrderConstructor,
    current_time: i64,
) -> bool {
    &&& payload.buy_or_sell == BuyOrSell::Sell
    &&& payload.client_order_id == order.client_order_id
    &&& payload.market_name@ == order.market.spec_market_name()
    &&& order.me_amount.is_named_by(payload.amount)
    &&& payload.nonce_from == Some(0i64)
    &&& payload.nonce_to == Some(0i64)
    &&& payload.nonce_order == spec_order_nonce(current_time) as i64
    &&& payload.timestamp == current_time
}

impl MarketOrderConstructor {
    /// The entries of the payload that carry the signatures of the
    /// settlement structures of this order. `signed` holds what the signers
    /// of the blockchains returned for the structures that `fill_orders`
    /// lists, in the same order. Where it does not hold one signature for
    /// each structure, signing was not available.
    pub fn blockchain_signatures(
        &self,
        signer: &SignerKeys,
        nonces: &[PayloadNonces],
        signed: &[ChainSignature],
    ) -> (r: Result<Vec<BlockchainSignature>, ProtocolError>)
        ensures
            match r {
                Ok(signatures) => {
                    &&& spec_fill_orders(
                        self.market,
                        self.source,
                        self.destination,
                        *signer,
                        nonces@,
                    ) is Ok
                    &&& are_blockchain_signatures(
                        signatures@,
                        spec_fill_orders(
                            self.market,
                            self.source,
                            self.destination,
                            *signer,
                            nonces@,
                        )->Ok_0,
                        *signer,
                        signed@,
                    )
                    &&& signatures@.len() == self.market.spec_blockchains().len() * nonces@.len()
                },
                Err(e) => match spec_fill_orders(
                    self.market,
                    self.source,
                    self.destination,
                    *signer,
                    nonces@,
                ) {
                    Err(failure) => e == failure,
                    Ok(orders) => orders.len() != signed@.len() && e
                        == ProtocolError::SigningUnavailable,
                },
            },
    {
        let orders: Vec<FillOrder> = match self.fill_orders(signer, nonces) {
            Ok(orders) => orders,
            Err(e) => {
                return Err(e);
            },
        };
        if orders.len() != signed.len() {
            return Err(ProtocolError::SigningUnavailable);
        }
        let ghost chains = self.market.spec_blockchains();
        let ghost f = fill_order_of(self.source, self.destination, *signer);
        let mut order_payloads: Vec<BlockchainSignature> = Vec::new();
        let mut k: usize = 0;
        while k < orders.len()
            invariant
                k <= orders.len(),
                orders@.len() == signed@.len(),
                chains == self.market.spec_blockchains(),
                f == fill_order_of(self.source, self.destination, *signer),
                keys_available(*signer, chains),
                orders@ == product(chains, nonces@, f),
                order_payloads@.len() == k,
                forall|i: int|
                    0 <= i < k ==> (#[trigger] order_payloads@[i]).is_for(
                        orders@[i],
                        signer.spec_child_public_key(orders@[i].spec_blockchain())->Ok_0,
                        signed@[i],
                    ),
            decreases orders.len() - k,
        {
            let fill_order: &FillOrder = &orders[k];
            proof {
                lemma_product_place(chains, nonces@, f, k as int);
                let c = k as int / (nonces@.len() as int);
                let j = k as int % (nonces@.len() as int);
                assert(signer.spec_child_public_key(chains[c]) is Ok);
                lemma_own_key_fits(self.source, self.destination, *signer, chains[c], nonces@[j]);
            }
            let pub_key: PublicKey = match signer.child_public_key(fill_order.blockchain()) {
                Ok(key) => key,
                Err(e) => {
                    return Err(e);
                },
            };
            order_payloads.push(fill_order.to_blockchain_signature(&pub_key, &signed[k]));
            k = k + 1;
        }
        Ok(order_payloads)
    }

    /// Create a request with everything filled in besides the blockchain
    /// signatures and the signature over the request.
    pub fn graphql_request(&self, current_time: i64, affiliate: Option<String>) -> (r: Result<
        place_market_order::Variables,
        ProtocolError,
    >)
        ensures
            r is Ok,
            has_market_order_fields(r->Ok_0.payload, *self, current_time),
            r->Ok_0.payload.blockchain_signatures@.len() == 0,
            r->Ok_0.affiliate == affiliate,
            r->Ok_0.signature.is_empty(),
    {
        let order_args = place_market_order::Variables {
            payload: place_market_order::PlaceMarketOrderParams {
                buy_or_sell: BuyOrSell::Sell,
                client_order_id: clone_text(&self.client_order_id),
                market_name: self.market.market_name(),
                amount: self.me_amount.to_currency_amount(),
                // These two nonces are no longer read
                nonce_from: Some(0),
                nonce_to: Some(0),
                nonce_order: order_nonce(current_time) as i64,
                timestamp: current_time,
                blockchain_signatures: Vec::new(),
            },
            affiliate,
            signature: RequestPayloadSignature::empty(),
        };
        Ok(order_args)
    }

    /// Create the signed request that is sent to the exchange. `signed` and
    /// `signature` are what the signers returned: `signed` for the
    /// settlement structures that `fill_orders` lists, `signature` for the
    /// canonical string of the request. The string is the same with and
    /// without the signatures, so it can be signed before they are known.
    pub fn signed_graphql_request(
        &self,
        nonces: Vec<PayloadNonces>,
        current_time: i64,
        affiliate: Option<String>,
        signer: &SignerKeys,
        signed: &[ChainSignature],
        signature: RequestPayloadSignature,
    ) -> (r: Result<MarketOrderMutation, ProtocolError>)
        ensures
            match r {
                Ok(mutation) => {
                    &&& has_market_order_fields(mutation.variables.payload, *self, current_time)
                    &&& mutation.variables.affiliate == affiliate
                    &&& mutation.variables.signature == signature
                    &&& spec_fill_orders(
                        self.market,
                        self.source,
                        self.destination,
                        *signer,
                        nonces@,
                    ) is Ok
                    &&& are_blockchain_signatures(
                        mutation.variables.payload.blockchain_signatures@,
                        spec_fill_orders(
                            self.market,
                            self.source,
                            self.destination,
                            *signer,
                            nonces@,
                        )->Ok_0,
                        *signer,
                        signed@,
                    )
                    &&& mutation.variables.payload.blockchain_signatures@.len()
                        == self.market.spec_blockchains().len() * nonces@.len()
                    &&& mutation.query@ == market_order_query()
                    &&& mutation.operation_name@ == "PlaceMarketOrder"@
                },
                Err(e) => match spec_fill_orders(
                    self.market,
                    self.source,
                    self.destination,
                    *signer,
                    nonces@,
                ) {
                    Err(failure) => e == failure,
                    Ok(orders) => orders.len() != signed@.len() && e
                        == ProtocolError::SigningUnavailable,
                },
            },
    {
        let mut request: place_market_order::Variables = match self.graphql_request(
            current_time,
            affiliate,
        ) {
            Ok(request) => request,
            Err(e) => {
                return Err(e);
            },
        };
        // compute and add blockchain signatures
        let bc_sigs: Vec<BlockchainSignature> = match self.blockchain_signatures(
            signer,
            nonces.as_slice(),
            signed,
        ) {
            Ok(signatures) => signatures,
            Err(e) => {
                return Err(e);
            },
        };
        request.payload.blockchain_signatures = bc_sigs;
        // now attach the overall request payload signature
        request.signature = signature;
        Ok(
            MarketOrderMutation {
                variables: request,
                query: "mutation PlaceMarketOrder($payload: PlaceMarketOrderParams!, $signature: Signature!, $affiliate: AffiliateDeveloperCode) {\n    placeMarketOrder(payload: $payload, signature: $signature, affiliateDeveloperCode: $affiliate) {\n        id\n        status\n        ordersTillSignState\n        buyOrSell\n        market {\n            name\n        }\n        placedAt\n        type\n    }\n}\n",
                operation_name: "PlaceMarketOrder",
            },
        )
    }
}

/// The builders of a batch of requests, one for each request and in their
/// order; or the failure of the first request that fails, in which case no
/// builder is made at all.
pub open spec fn spec_limit_orders_constructors(
    requests: Seq<LimitOrderRequest>,
    markets: Seq<Market>,
) -> Result<Seq<LimitOrderConstructor>, ProtocolError>
    decreases requests.len(),
{
    if requests.len() == 0 {
        Ok(Seq::empty())
    } else {
        match spec_limit_orders_constructors(requests.drop_last(), markets) {
            Err(e) => Err(e),
            Ok(done) => match spec_limit_order_constructor(requests.last(), markets) {
                Err(e) => Err(e),
                Ok(constructor) => Ok(done.push(constructor)),
            },
        }
    }
}

/// The builders of a batch keep the places of the requests. Where builders
/// are made there is one for every request and the builder at each place is
/// that of the request at the same place. Where none are made, some request
/// fails, every request before it succeeds, and the failure is that of this
/// first failing request: no request is skipped.
pub proof fn lemma_constructors_keep_places(requests: Seq<LimitOrderRequest>, markets: Seq<Market>)
    ensures
        match spec_limit_orders_constructors(requests, markets) {
            Ok(constructors) => {
                &&& constructors.len() == requests.len()
                &&& forall|i: int|
                    0 <= i < requests.len() ==> spec_limit_order_constructor(
                        #[trigger] requests[i],
                        markets,
                    ) == Ok::<LimitOrderConstructor, ProtocolError>(constructors[i])
            },
            Err(e) => exists|i: int|
                {
                    &&& 0 <= i < requests.len()
                    &&& spec_limit_order_constructor(#[trigger] requests[i], markets) == Err::<
                        LimitOrderConstructor,
                        ProtocolError,
                    >(e)
                    &&& forall|j: int|
                        0 <= j < i ==> spec_limit_order_constructor(#[trigger] requests[j], markets)
                            is Ok
                },
        },
    decreases requests.len(),
{
    if requests.len() > 0 {
        let before = requests.drop_last();
        lemma_constructors_keep_places(before, markets);
        match spec_limit_orders_constructors(before, markets) {
            Err(e) => {
                let i = choose|i: int|
                    {
                        &&& 0 <= i < before.len()
                        &&& spec_limit_order_constructor(#[trigger] before[i], markets) == Err::<
                            LimitOrderConstructor,
                            ProtocolError,
                        >(e)
                        &&& forall|j: int|
                            0 <= j < i ==> spec_limit_order_constructor(
                                #[trigger] before[j],
                                markets,
                            ) is Ok
                    };
                assert(requests[i] == before[i]);
                assert forall|j: int| 0 <= j < i implies spec_limit_order_constructor(
                    #[trigger] requests[j],
                    markets,
                ) is Ok by {
                    assert(requests[j] == before[j]);
                }
            },
            Ok(done) => {
                let last = requests.len() - 1;
                match spec_limit_order_constructor(requests.last(), markets) {
                    Err(e) => {
                        assert(requests[last] == requests.last());
                        assert forall|j: int| 0 <= j < last implies spec_limit_order_constructor(
                            #[trigger] requests[j],
                            markets,
                        ) is Ok by {
                            assert(requests[j] == before[j]);
                        }
                    },
                    Ok(constructor) => {
                        let all = done.push(constructor);
                        assert forall|i: int| 0 <= i < requests.len() implies spec_limit_order_constructor(
                            #[trigger] requests[i],
                            markets,
                        ) == Ok::<LimitOrderConstructor, ProtocolError>(all[i]) by {
                            if i < last {
                                assert(requests[i] == before[i]);
                            }
                        }
                    },
                }
            },
        }
    }
}

impl LimitOrdersRequest {
    /// The builders of the batch: for every request, buy or sell `amount` of
    /// `A` in price of `B` for an A/B market. The first request that fails
    /// ends the construction of the whole batch.
    pub fn make_constructor(&self, state: &State) -> (r: Result<
        LimitOrdersConstructor,
        ProtocolError,
    >)
        ensures
            match r {
                Ok(batch) => spec_limit_orders_constructors(self.requests@, state.markets@) == Ok::<
                    Seq<LimitOrderConstructor>,
                    ProtocolError,
                >(batch.constructors@),
                Err(e) => spec_limit_orders_constructors(self.requests@, state.markets@) == Err::<
                    Seq<LimitOrderConstructor>,
                    ProtocolError,
                >(e),
            },
    {
        let mut constructors: Vec<LimitOrderConstructor> = Vec::new();
        let mut i: usize = 0;
        proof {
            assert(self.requests@.subrange(0, 0) =~= Seq::<LimitOrderRequest>::empty());
        }
        while i < self.requests.len()
            invariant
                i <= self.requests.len(),
                spec_limit_orders_constructors(
                    self.requests@.subrange(0, i as int),
                    state.markets@,
                ) == Ok::<Seq<LimitOrderConstructor>, ProtocolError>(constructors@),
            decreases self.requests.len() - i,
        {
            proof {
                let next = self.requests@.subrange(0, i + 1);
                assert(next.drop_last() =~= self.requests@.subrange(0, i as int));
                assert(next.last() == self.requests@[i as int]);
            }
            match self.requests[i].make_constructor(state) {
                Ok(constructor) => {
                    constructors.push(constructor);
                },
                Err(e) => {
                    proof {
                        lemma_constructors_fail_on(self.requests@, state.markets@, i + 1);
                    }
                    return Err(e);
                },
            }
            i = i + 1;
        }
        proof {
            assert(self.requests@.subrange(0, i as int) =~= self.requests@);
        }
        Ok(LimitOrdersConstructor { constructors })
    }
}

/// A batch fails as its beginning fails.
proof fn lemma_constructors_fail_on(requests: Seq<LimitOrderRequest>, markets: Seq<Market>, n: int)
    requires
        0 <= n <= requests.len(),
        spec_limit_orders_constructors(requests.subrange(0, n), markets) is Err,
    ensures
        spec_limit_orders_constructors(requests, markets) == spec_limit_orders_constructors(
            requests.subrange(0, n),
            markets,
        ),
    decreases requests.len() - n,
{
    if n < requests.len() {
        let next = requests.subrange(0, n + 1);
        assert(next.drop_last() =~= requests.subrange(0, n));
        lemma_constructors_fail_on(requests, markets, n + 1);
    } else {
        assert(requests.subrange(0, n) =~= requests);
    }
}

/// Whether `payload` carries the fields of the limit order that `order`
/// builds at `current_time` as the order at place `index` of its batch,
/// whatever signatures it holds. It names the market and the amount; its
/// price is counted in the second asset of the market for one unit of the
/// first. The time at which the order is cancelled is there, as decimal
/// text, only where the policy is good-until-time. The nonce of the order is
/// that of an order made at `current_time`, plus the place of the order, so
/// that the orders of one batch differ. The two nonces that are no longer
/// read carry a fixed number.
pub open spec fn has_limit_order_fields(
    payload: place_limit_order::PlaceLimitOrderParams,
    order: LimitOrderConstructor,
    current_time: i64,
    index: int,
) -> bool {
    &&& payload.client_order_id == order.client_order_id
    &&& payload.allow_taker == order.allow_taker
    &&& payload.buy_or_sell == order.buy_or_sell
    &&& optional_text(payload.cancel_at) == match order.cancellation_policy.spec_cancel_at() {
        Some(time) => Some(signed_decimal_text(time as int)),
        None => None,
    }
    &&& payload.cancellation_policy == order.cancellation_policy
    &&& payload.market_name@ == order.market.spec_market_name()
    &&& order.me_amount.is_named_by(payload.amount)
    &&& payload.nonce_from == 1234
    &&& payload.nonce_to == 1234
    &&& payload.nonce_order == spec_order_nonce(current_time) + index
    &&& payload.timestamp == current_time
    &&& payload.limit_price.currency_a@ == order.market.asset_b.asset.spec_name()
    &&& payload.limit_price.currency_b@ == order.market.asset_a.asset.spec_name()
    &&& payload.limit_price.amount@ == order.me_rate.inner.spec_text()
}

/// Whether `variables` are those of an order before it is signed.
pub open spec fn are_unsigned_limit_order_variables(
    variables: place_limit_order::Variables,
    order: LimitOrderConstructor,
    current_time: i64,
    affiliate: Option<String>,
    index: int,
) -> bool {
    &&& has_limit_order_fields(variables.payload, order, current_time, index)
    &&& variables.payload.blockchain_signatures@.len() == 0
    &&& variables.affiliate == affiliate
    &&& variables.signature.is_empty()
}

/// The settlement structures of the order at one place of a batch, made at
/// `time`, for which `signed` holds the signatures; or why the order cannot
/// be signed: a nonce pool is missing, the session has no signer or lacks a
/// key, or `signed` does not hold one signature for each structure.
pub open spec fn spec_sub_order(
    order: LimitOrderConstructor,
    state: State,
    time: i64,
    signed: OrderSignatures,
) -> Result<Seq<FillOrder>, ProtocolError> {
    match spec_limit_payload_nonces(order.source, order.destination, state, time) {
        Err(e) => Err(e),
        Ok(nonces) => match state.signer {
            None => Err(ProtocolError::SigningUnavailable),
            Some(signer) => match spec_fill_orders(
                order.market,
                order.source,
                order.destination,
                signer,
                seq![nonces],
            ) {
                Err(e) => Err(e),
                Ok(orders) => if orders.len() == signed.blockchain@.len() {
                    Ok(orders)
                } else {
                    Err(ProtocolError::SigningUnavailable)
                },
            },
        },
    }
}

/// Whether `variables` are those of the signed order at place `index` of a
/// batch: the fields of the order, the entries for the settlement structures
/// of the order made at `current_time + index` with the signatures of
/// `signed`, and the signature over the request from `signed`.
pub open spec fn are_signed_limit_order_variables(
    variables: place_limit_order::Variables,
    order: LimitOrderConstructor,
    current_time: i64,
    affiliate: Option<String>,
    index: int,
    state: State,
    signed: OrderSignatures,
) -> bool {
    &&& has_limit_order_fields(variables.payload, order, current_time, index)
    &&& variables.affiliate == affiliate
    &&& variables.signature == signed.request
    &&& state.signer is Some
    &&& spec_sub_order(order, state, (current_time + index) as i64, signed) is Ok
    &&& are_blockchain_signatures(
        variables.payload.blockchain_signatures@,
        spec_sub_order(order, state, (current_time + index) as i64, signed)->Ok_0,
        state.signer->Some_0,
        signed.blockchain@,
    )
}

/// Whether `body` is the signed batch of the orders that `constructors`
/// build: `variables` are the signed variables of the orders, place by
/// place, and `body` is their batch.
pub open spec fn is_signed_batch(
    body: MultiQueryBody,
    variables: Seq<place_limit_order::Variables>,
    constructors: Seq<LimitOrderConstructor>,
    current_time: i64,
    affiliate: Option<String>,
    state: State,
    signed: Seq<OrderSignatures>,
) -> bool {
    &&& variables.len() == constructors.len()
    &&& forall|i: int|
        0 <= i < variables.len() ==> are_signed_limit_order_variables(
            #[trigger] variables[i],
            constructors[i],
            current_time,
            affiliate,
            i,
            state,
            signed[i],
        )
    &&& is_batch(body, variables)
}

/// Whether `e` is the failure of a batch that cannot be signed: `signed`
/// does not hold the signatures of exactly the orders of the batch, or `e`
/// is the failure of the first order that cannot be signed.
pub open spec fn spec_batch_failure(
    constructors: Seq<LimitOrderConstructor>,
    current_time: i64,
    state: State,
    signed: Seq<OrderSignatures>,
    e: ProtocolError,
) -> bool {
    ||| signed.len() != constructors.len() && e == ProtocolError::SigningUnavailable
    ||| signed.len() == constructors.len() && exists|i: int|
        {
            &&& 0 <= i < constructors.len()
            &&& spec_sub_order(
                #[trigger] constructors[i],
                state,
                (current_time + i) as i64,
                signed[i],
            ) == Err::<Seq<FillOrder>, ProtocolError>(e)
            &&& forall|j: int|
                0 <= j < i ==> spec_sub_order(
                    #[trigger] constructors[j],
                    state,
                    (current_time + j) as i64,
                    signed[j],
                ) is Ok
        }
}

/// The variables of the order at place `index` before it is signed.
fn limit_order_variables(
    request: &LimitOrderConstructor,
    current_time: i64,
    affiliate: &Option<String>,
    index: usize,
) -> (r: place_limit_order::Variables)
    requires
        index + 0xffff_ffff <= i64::MAX,
    ensures
        are_unsigned_limit_order_variables(r, *request, current_time, *affiliate, index as int),
{
    let cancel_at: Option<String> = match request.cancellation_policy.cancel_at() {
        Some(time) => Some(i64_to_text(time)),
        None => None,
    };
    place_limit_order::Variables {
        payload: place_limit_order::PlaceLimitOrderParams {
            client_order_id: clone_text(&request.client_order_id),
            allow_taker: request.allow_taker,
            buy_or_sell: request.buy_or_sell,
            cancel_at,
            cancellation_policy: request.cancellation_policy,
            market_name: request.market.market_name(),
            amount: request.me_amount.to_currency_amount(),
            // These two nonces are no longer read
            nonce_from: 1234,
            nonce_to: 1234,
            nonce_order: order_nonce(current_time) as i64 + index as i64,
            timestamp: current_time,
            limit_price: place_limit_order::CurrencyPriceParams {
                // Prices are always in B for an A/B market, so the price
                // names the two assets the other way round
                currency_a: String::from_str(request.market.asset_b.asset.name()),
                currency_b: String::from_str(request.market.asset_a.asset.name()),
                amount: request.me_rate.inner.to_text(),
            },
            blockchain_signatures: Vec::new(),
        },
        affiliate: clone_text(affiliate),
        signature: RequestPayloadSignature::empty(),
    }
}

impl LimitOrdersConstructor {
    /// Create the requests of the batch with everything filled in besides
    /// the blockchain signatures and the signatures over the requests: one
    /// for every order, in the order of the batch.
    pub fn graphql_request(&self, current_time: i64, affiliate: Option<String>) -> (r: Result<
        Vec<place_limit_order::Variables>,
        ProtocolError,
    >)
        requires
            self.constructors@.len() + 0xffff_ffff <= i64::MAX,
        ensures
            r is Ok,
            r->Ok_0@.len() == self.constructors@.len(),
            forall|i: int|
                0 <= i < self.constructors@.len() ==> are_unsigned_limit_order_variables(
                    #[trigger] r->Ok_0@[i],
                    self.constructors@[i],
                    current_time,
                    affiliate,
                    i,
                ),
    {
        let mut result: Vec<place_limit_order::Variables> = Vec::new();
        let mut index: usize = 0;
        while index < self.constructors.len()
            invariant
                index <= self.constructors.len(),
                self.constructors@.len() + 0xffff_ffff <= i64::MAX,
                result@.len() == index,
                forall|i: int|
                    0 <= i < index ==> are_unsigned_limit_order_variables(
                        #[trigger] result@[i],
                        self.constructors@[i],
                        current_time,
                        affiliate,
                        i,
                    ),
            decreases self.constructors.len() - index,
        {
            result.push(
                limit_order_variables(&self.constructors[index], current_time, &affiliate, index),
            );
            index = index + 1;
        }
        Ok(result)
    }

    /// The signed variables of the orders of the batch, place by place.
    /// `signed` holds, for every order of the batch and in its order, what
    /// the signers returned. The order at place `i` is made at
    /// `current_time + i`. The first order that cannot be signed ends the
    /// work: no order is skipped.
    pub fn signed_variables(
        &self,
        current_time: i64,
        affiliate: &Option<String>,
        state: &State,
        signed: &[OrderSignatures],
    ) -> (r: Result<Vec<place_limit_order::Variables>, ProtocolError>)
        requires
            self.constructors@.len() + 0xffff_ffff <= i64::MAX,
            current_time + self.constructors@.len() <= i64::MAX,
        ensures
            match r {
                Ok(variables) => {
                    &&& signed@.len() == self.constructors@.len()
                    &&& variables@.len() == self.constructors@.len()
                    &&& forall|i: int|
                        0 <= i < variables@.len() ==> are_signed_limit_order_variables(
                            #[trigger] variables@[i],
                            self.constructors@[i],
                            current_time,
                            *affiliate,
                            i,
                            *state,
                            signed@[i],
                        )
                },
                Err(e) => spec_batch_failure(
                    self.constructors@,
                    current_time,
                    *state,
                    signed@,
                    e,
                ),
            },
    {
        let n: usize = self.constructors.len();
        if signed.len() != n {
            return Err(ProtocolError::SigningUnavailable);
        }
        let mut variables: Vec<place_limit_order::Variables> = Vec::new();
        let mut index: usize = 0;
        while index < n
            invariant
                index <= n,
                n == self.constructors@.len(),
                n == signed@.len(),
                self.constructors@.len() + 0xffff_ffff <= i64::MAX,
                current_time + self.constructors@.len() <= i64::MAX,
                variables@.len() == index,
                forall|i: int|
                    0 <= i < index ==> are_signed_limit_order_variables(
                        #[trigger] variables@[i],
                        self.constructors@[i],
                        current_time,
                        *affiliate,
                        i,
                        *state,
                        signed@[i],
                    ),
                forall|j: int|
                    0 <= j < index ==> spec_sub_order(
                        #[trigger] self.constructors@[j],
                        *state,
                        (current_time + j) as i64,
                        signed@[j],
                    ) is Ok,
            decreases n - index,
        {
            let constructor: &LimitOrderConstructor = &self.constructors[index];
            let signatures: &OrderSignatures = &signed[index];
            let mut variable: place_limit_order::Variables = limit_order_variables(
                constructor,
                current_time,
                affiliate,
                index,
            );
            let time: i64 = current_time + index as i64;
            let ghost outcome = spec_sub_order(
                self.constructors@[index as int],
                *state,
                (current_time + index) as i64,
                signed@[index as int],
            );
            let nonces: PayloadNonces = match constructor.make_payload_nonces(state, time) {
                Ok(nonces) => nonces,
                Err(e) => {
                    proof {
                        assert(outcome == Err::<Seq<FillOrder>, ProtocolError>(e));
                    }
                    return Err(e);
                },
            };
            let signer: &SignerKeys = match state.signer() {
                Ok(signer) => signer,
                Err(e) => {
                    proof {
                        assert(outcome == Err::<Seq<FillOrder>, ProtocolError>(e));
                    }
                    return Err(e);
                },
            };
            // compute and add blockchain signatures
            let bc_sigs: Vec<BlockchainSignature> = match constructor.blockchain_signatures(
                signer,
                &nonces,
                signatures.blockchain.as_slice(),
            ) {
                Ok(signatures) => signatures,
                Err(e) => {
                    proof {
                        assert(outcome == Err::<Seq<FillOrder>, ProtocolError>(e));
                    }
                    return Err(e);
                },
            };
            variable.payload.blockchain_signatures = bc_sigs;
            // now attach the overall request payload signature
            variable.signature = signatures.request.clone();
            proof {
                assert(outcome is Ok);
                assert(are_signed_limit_order_variables(
                    variable,
                    self.constructors@[index as int],
                    current_time,
                    *affiliate,
                    index as int,
                    *state,
                    signed@[index as int],
                ));
            }
            variables.push(variable);
            index = index + 1;
        }
        Ok(variables)
    }

    /// Create the signed batch that is sent to the exchange. `signed` holds,
    /// for every order of the batch and in its order, what the signers
    /// returned. The order at place `i` is made at `current_time + i` and is
    /// sent under the names and the alias of place `i`. The first order that
    /// cannot be signed ends the assembly of the whole batch: no order is
    /// skipped and none is renumbered.
    pub fn signed_graphql_request(
        &self,
        current_time: i64,
        affiliate: Option<String>,
        state: &State,
        signed: &[OrderSignatures],
    ) -> (r: Result<MultiQueryBody, ProtocolError>)
        requires
            self.constructors@.len() + 0xffff_ffff <= i64::MAX,
            current_time + self.constructors@.len() <= i64::MAX,
        ensures
            match r {
                Ok(body) => {
                    &&& signed@.len() == self.constructors@.len()
                    &&& exists|variables: Seq<place_limit_order::Variables>|
                        is_signed_batch(
                            body,
                            variables,
                            self.constructors@,
                            current_time,
                            affiliate,
                            *state,
                            signed@,
                        )
                },
                Err(e) => spec_batch_failure(
                    self.constructors@,
                    current_time,
                    *state,
                    signed@,
                    e,
                ),
            },
    {
        let variables: Vec<place_limit_order::Variables> = match self.signed_variables(
            current_time,
            &affiliate,
            state,
            signed,
        ) {
            Ok(variables) => variables,
            Err(e) => {
                return Err(e);
            },
        };
        let body: MultiQueryBody = multi_query_body(&variables);
        let r: Result<MultiQueryBody, ProtocolError> = Ok(body);
        proof {
            assert(r is Ok);
            assert(is_signed_batch(
                r->Ok_0,
                variables@,
                self.constructors@,
                current_time,
                affiliate,
                *state,
                signed@,
            ));
            assert(signed@.len() == self.constructors@.len());
        }
        r
    }
}

} // verus!

use nash_protocol::errors::ProtocolError;
use nash_protocol::protocol::place_order::blockchain::{btc, eth, neo, FillOrder};
use nash_protocol::protocol::place_order::types::{
    LimitOrderConstructor, LimitOrderRequest, PayloadNonces,
};
use nash_protocol::protocol::place_orders::types::{
    LimitOrdersRequest, MarketOrderConstructor, MarketOrdersRequest,
};
use nash_protocol::protocol::signature::{
    BlockchainSignature, ChainSignature, RequestPayloadSignature,
};
use nash_protocol::state::{NoncePool, State};
use nash_protocol::types::amount::{Amount, AssetAmount};
use nash_protocol::types::asset::{Asset, AssetOfPrecision, Blockchain};
use nash_protocol::types::blockchain::btc::PublicKey as BtcPublicKey;
use nash_protocol::types::blockchain::eth::{Address as EthAddress, PublicKey as EthPublicKey};
use nash_protocol::types::blockchain::neo::{Address as NeoAddress, PublicKey as NeoPublicKey};
use nash_protocol::types::keys::{PublicKey, SignerKeys};
use nash_protocol::types::market::Market;
use nash_protocol::types::nonce::Nonce;
use nash_protocol::types::order::{BuyOrSell, OrderCancellationPolicy, OrderRate, Rate};

const K1: &str = "0279be667ef9dcbbac55a06295ce870b07029bfcdb2dce28d959f2815b16f81798";
const R1: &str = "036b17d1f2e12c4247f8bce6e563a440f277037d812deb33a0f4a13945d898c296";
const ETH_ADDRESS: &str = "7e5f4552091a69125d5dfcb7b8c2659029395bdf";

fn asset(asset: Asset) -> AssetOfPrecision {
    AssetOfPrecision { asset, precision: 8 }
}

fn eth_btc() -> Market {
    Market::new(asset(Asset::ETH), asset(Asset::BTC))
}

fn eth_key() -> EthPublicKey {
    EthPublicKey::new(K1, EthAddress::new(ETH_ADDRESS).unwrap()).unwrap()
}

fn btc_key() -> BtcPublicKey {
    BtcPublicKey::new(K1).unwrap()
}

fn neo_key() -> NeoPublicKey {
    NeoPublicKey::new(R1, NeoAddress::new("AK2nJJpJr6o664CWJKi1QRXjqeic2zRp8y").unwrap()).unwrap()
}

fn all_keys() -> SignerKeys {
    SignerKeys { ethereum: Some(eth_key()), bitcoin: Some(btc_key()), neo: Some(neo_key()) }
}

fn state() -> State {
    let mut state = State::new(vec![
        eth_btc(),
        Market::new(asset(Asset::ETH), asset(Asset::USDC)),
        Market::new(asset(Asset::NEO), asset(Asset::ETH)),
    ]);
    state.set_asset_nonces(Asset::ETH, vec![1, 2]);
    state.set_asset_nonces(Asset::BTC, vec![10, 20, 30]);
    state.set_asset_nonces(Asset::USDC, vec![7]);
    state.signer = Some(all_keys());
    state
}

fn market_request(market: &str, amount: &str) -> MarketOrdersRequest {
    MarketOrdersRequest {
        client_order_id: Some("order-1".to_string()),
        market: market.to_string(),
        amount: amount.to_string(),
    }
}

fn limit_request(market: &str, side: BuyOrSell, amount: &str, price: &str) -> LimitOrderRequest {
    LimitOrderRequest {
        client_order_id: None,
        market: market.to_string(),
        buy_or_sell: side,
        amount: amount.to_string(),
        price: price.to_string(),
        cancellation_policy: OrderCancellationPolicy::GoodTilCancelled,
        allow_taker: true,
    }
}

fn nonces(from: u32, to: u32, order: u32) -> PayloadNonces {
    PayloadNonces {
        nonce_from: Nonce::Value(from),
        nonce_to: Nonce::Value(to),
        order_nonce: Nonce::Value(order),
    }
}

fn signed(n: usize) -> Vec<ChainSignature> {
    (0..n)
        .map(|i| ChainSignature { signature: format!("sig{}", i), r: format!("r{}", i) })
        .collect()
}

#[test]
fn markets_are_found_under_their_names() {
    let state = state();
    assert_eq!(state.get_market("ETH_BTC"), Ok(eth_btc()));
    assert_eq!(state.get_market("BTC_ETH"), Err(ProtocolError::UnknownMarket));
    assert_eq!(state.get_market("eth_btc"), Err(ProtocolError::UnknownMarket));
    assert_eq!(state.get_market(""), Err(ProtocolError::UnknownMarket));
}

#[test]
fn resolution_is_symmetric() {
    let state = state();
    for market in state.markets.iter() {
        let direct = state.resolve_market(&market.market_name()).unwrap();
        let reversed = state.resolve_market(&market.invert().market_name()).unwrap();
        assert_eq!(direct, *market);
        assert_eq!(reversed, market.invert());
        assert_eq!(reversed.invert(), direct);
        assert_eq!(reversed.asset_a, direct.asset_b);
        assert_eq!(reversed.asset_b, direct.asset_a);
    }
}

#[test]
fn unknown_markets_are_refused_in_both_directions() {
    let state = state();
    assert_eq!(state.resolve_market("BTC_USDC"), Err(ProtocolError::UnknownMarket));
    assert_eq!(state.resolve_market("USDC_BTC"), Err(ProtocolError::UnknownMarket));
    assert_eq!(state.resolve_market("ETH"), Err(ProtocolError::UnknownMarket));
    assert_eq!(state.resolve_market(""), Err(ProtocolError::UnknownMarket));
    assert_eq!(State::new(vec![]).resolve_market("ETH_BTC"), Err(ProtocolError::UnknownMarket));
}

#[test]
fn a_listed_market_is_preferred_to_an_inverted_one() {
    let other = Market::new(
        AssetOfPrecision { asset: Asset::BTC, precision: 4 },
        AssetOfPrecision { asset: Asset::ETH, precision: 4 },
    );
    let state = State::new(vec![eth_btc(), other]);
    assert_eq!(state.resolve_market("BTC_ETH"), Ok(other));
    assert_eq!(state.resolve_market("ETH_BTC"), Ok(eth_btc()));
}

#[test]
fn limit_order_for_the_reversed_name_resolves_to_the_inverted_market() {
    let state = State::new(vec![eth_btc()]);
    let request = limit_request("BTC_ETH", BuyOrSell::Sell, "1", "30");
    let constructor = request.make_constructor(&state).unwrap();
    assert_eq!(constructor.market, eth_btc().invert());
    assert_eq!(constructor.market.market_name(), "BTC_ETH");
    assert_eq!(constructor.market.asset_a.asset, Asset::BTC);
    assert_eq!(constructor.market.asset_b.asset, Asset::ETH);
    assert_eq!(constructor.source.asset.asset, Asset::BTC);
    assert_eq!(constructor.destination.asset, Asset::ETH);

    let direct = limit_request("ETH_BTC", BuyOrSell::Sell, "1", "0.03")
        .make_constructor(&state)
        .unwrap();
    assert_eq!(direct.market, eth_btc());
    assert_eq!(direct.source.asset.asset, constructor.destination.asset);
    assert_eq!(direct.destination.asset, constructor.source.asset.asset);
}

#[test]
fn market_order_constructor() {
    let state = state();
    let constructor = market_request("ETH_BTC", "1.5").make_constructor(&state).unwrap();
    let amount =
        AssetAmount { asset: asset(Asset::ETH), amount: Amount { units: 150000000, precision: 8 } };
    assert_eq!(
        constructor,
        MarketOrderConstructor {
            client_order_id: Some("order-1".to_string()),
            me_amount: amount,
            market: eth_btc(),
            source: amount,
            destination: asset(Asset::BTC),
        }
    );
    assert_eq!(constructor.clone(), constructor);

    let reversed = market_request("BTC_ETH", "0.5").make_constructor(&state).unwrap();
    assert_eq!(reversed.market, eth_btc().invert());
    assert_eq!(reversed.source.asset.asset, Asset::BTC);
    assert_eq!(reversed.source.amount.units, 50000000);
    assert_eq!(reversed.destination.asset, Asset::ETH);
}

#[test]
fn market_order_constructor_failures() {
    let state = state();
    assert_eq!(
        market_request("BTC_USDC", "1").make_constructor(&state),
        Err(ProtocolError::UnknownMarket)
    );
    assert_eq!(
        market_request("ETH_BTC", "-1").make_constructor(&state),
        Err(ProtocolError::InvalidAmount)
    );
    assert_eq!(
        market_request("ETH_BTC", "1.000000001").make_constructor(&state),
        Err(ProtocolError::InvalidAmount)
    );
}

#[test]
fn limit_order_constructor_for_a_sale_and_a_purchase() {
    let state = state();
    let sale = limit_request("ETH_BTC", BuyOrSell::Sell, "2", "0.03").make_constructor(&state);
    let me_amount =
        AssetAmount { asset: asset(Asset::ETH), amount: Amount { units: 200000000, precision: 8 } };
    let me_rate = OrderRate { inner: Amount { units: 3000000, precision: 8 } };
    assert_eq!(
        sale,
        Ok(LimitOrderConstructor {
            client_order_id: None,
            me_amount,
            me_rate,
            market: eth_btc(),
            buy_or_sell: BuyOrSell::Sell,
            cancellation_policy: OrderCancellationPolicy::GoodTilCancelled,
            allow_taker: true,
            source: me_amount,
            destination: asset(Asset::BTC),
        })
    );
    let purchase = limit_request("ETH_BTC", BuyOrSell::Buy, "2", "0.03")
        .make_constructor(&state)
        .unwrap();
    assert_eq!(purchase.me_amount, me_amount);
    assert_eq!(purchase.me_rate, me_rate);
    assert_eq!(
        purchase.source,
        AssetAmount { asset: asset(Asset::BTC), amount: Amount { units: 6000000, precision: 8 } }
    );
    assert_eq!(purchase.destination, asset(Asset::ETH));
}

#[test]
fn limit_order_constructor_failures() {
    let state = state();
    assert_eq!(
        limit_request("GAS_NNN", BuyOrSell::Sell, "1", "1").make_constructor(&state),
        Err(ProtocolError::UnknownMarket)
    );
    assert_eq!(
        limit_request("ETH_BTC", BuyOrSell::Sell, "x", "1").make_constructor(&state),
        Err(ProtocolError::InvalidAmount)
    );
    assert_eq!(
        limit_request("ETH_BTC", BuyOrSell::Sell, "1", "").make_constructor(&state),
        Err(ProtocolError::InvalidAmount)
    );
    assert_eq!(
        limit_request("ETH_BTC", BuyOrSell::Buy, "100000000000", "100000000000")
            .make_constructor(&state),
        Err(ProtocolError::InvalidAmount)
    );
}

#[test]
fn batch_of_constructors_keeps_places_and_fails_as_a_whole() {
    let state = state();
    let batch = LimitOrdersRequest {
        requests: vec![
            limit_request("ETH_BTC", BuyOrSell::Sell, "1", "0.03"),
            limit_request("BTC_ETH", BuyOrSell::Buy, "2", "30"),
            limit_request("ETH_USDC", BuyOrSell::Sell, "3", "400"),
        ],
    };
    let constructors = batch.make_constructor(&state).unwrap().constructors;
    assert_eq!(constructors.len(), 3);
    for (i, request) in batch.requests.iter().enumerate() {
        assert_eq!(request.make_constructor(&state).as_ref(), Ok(&constructors[i]));
    }
    assert_eq!(constructors[1].market, eth_btc().invert());

    let failing = LimitOrdersRequest {
        requests: vec![
            limit_request("ETH_BTC", BuyOrSell::Sell, "1", "0.03"),
            limit_request("ETH_BTC", BuyOrSell::Sell, "-1", "0.03"),
            limit_request("NO_MARKET", BuyOrSell::Sell, "1", "0.03"),
        ],
    };
    assert_eq!(failing.make_constructor(&state), Err(ProtocolError::InvalidAmount));
    let empty = LimitOrdersRequest { requests: vec![] };
    assert_eq!(empty.make_constructor(&state).unwrap().constructors.len(), 0);
}

#[test]
fn nonce_pools() {
    let mut state = State::new(vec![eth_btc()]);
    assert_eq!(state.asset_nonce_pool(Asset::ETH), Err(ProtocolError::MissingNoncePool));
    state.set_asset_nonces(Asset::ETH, vec![1, 2]);
    assert_eq!(state.asset_nonce_pool(Asset::ETH), Ok(&vec![1, 2]));
    assert_eq!(state.asset_nonce_pool(Asset::BTC), Err(ProtocolError::MissingNoncePool));
    state.set_asset_nonces(Asset::BTC, vec![]);
    state.set_asset_nonces(Asset::ETH, vec![3]);
    assert_eq!(state.asset_nonce_pool(Asset::ETH), Ok(&vec![3]));
    assert_eq!(state.asset_nonce_pool(Asset::BTC), Ok(&vec![]));
    assert_eq!(state.markets, vec![eth_btc()]);
    assert_eq!(state.signer(), Err(ProtocolError::SigningUnavailable));
    state.signer = Some(all_keys());
    assert_eq!(state.signer(), Ok(&all_keys()));
    let pools = vec![NoncePool { asset: Asset::ETH, nonces: vec![9] }];
    let state = State { markets: vec![], asset_nonces: Some(pools), signer: None };
    assert_eq!(state.asset_nonce_pool(Asset::ETH), Ok(&vec![9]));
}

#[test]
fn nonce_expansion_holds_every_pair_once() {
    let state = state();
    let constructor = market_request("ETH_BTC", "1").make_constructor(&state).unwrap();
    let time: i64 = 1600000000;
    let combinations = constructor.make_payload_nonces(&state, time).unwrap();
    let from = [1u32, 2];
    let to = [10u32, 20, 30];
    assert_eq!(combinations.len(), from.len() * to.len());
    for (i, f) in from.iter().enumerate() {
        for (j, t) in to.iter().enumerate() {
            let expected = nonces(*f, *t, 1600000000);
            assert_eq!(combinations[i * to.len() + j], expected);
            assert_eq!(combinations.iter().filter(|c| **c == expected).count(), 1);
        }
    }
    assert_eq!(
        combinations,
        vec![
            nonces(1, 10, 1600000000),
            nonces(1, 20, 1600000000),
            nonces(1, 30, 1600000000),
            nonces(2, 10, 1600000000),
            nonces(2, 20, 1600000000),
            nonces(2, 30, 1600000000),
        ]
    );
}

#[test]
fn nonce_expansion_edges() {
    let mut state = State::new(vec![eth_btc()]);
    let constructor = market_request("ETH_BTC", "1").make_constructor(&state).unwrap();
    assert_eq!(constructor.make_payload_nonces(&state, 5), Err(ProtocolError::MissingNoncePool));
    state.set_asset_nonces(Asset::ETH, vec![1, 2]);
    assert_eq!(constructor.make_payload_nonces(&state, 5), Err(ProtocolError::MissingNoncePool));
    state.set_asset_nonces(Asset::BTC, vec![]);
    assert_eq!(constructor.make_payload_nonces(&state, 5), Ok(vec![]));
    state.set_asset_nonces(Asset::BTC, vec![4]);
    assert_eq!(
        constructor.make_payload_nonces(&state, 4294967296 + 5),
        Ok(vec![nonces(1, 4, 5), nonces(2, 4, 5)])
    );
    let mut only_to = State::new(vec![eth_btc()]);
    only_to.set_asset_nonces(Asset::BTC, vec![4]);
    assert_eq!(constructor.make_payload_nonces(&only_to, 5), Err(ProtocolError::MissingNoncePool));
}

#[test]
fn limit_order_uses_one_combination() {
    let state = state();
    let sale = limit_request("ETH_BTC", BuyOrSell::Sell, "2", "0.03")
        .make_constructor(&state)
        .unwrap();
    assert_eq!(sale.make_payload_nonces(&state, 77), Ok(nonces(1, 10, 77)));
    let purchase = limit_request("ETH_BTC", BuyOrSell::Buy, "2", "0.03")
        .make_constructor(&state)
        .unwrap();
    assert_eq!(purchase.make_payload_nonces(&state, 78), Ok(nonces(10, 1, 78)));

    let mut empty = State::new(vec![eth_btc()]);
    empty.set_asset_nonces(Asset::ETH, vec![]);
    empty.set_asset_nonces(Asset::BTC, vec![1]);
    assert_eq!(sale.make_payload_nonces(&empty, 77), Err(ProtocolError::MissingNoncePool));
    assert_eq!(
        sale.make_payload_nonces(&State::new(vec![]), 77),
        Err(ProtocolError::MissingNoncePool)
    );
}

#[test]
fn fill_order_for_each_blockchain() {
    let state = state();
    let constructor = market_request("ETH_BTC", "1.5").make_constructor(&state).unwrap();
    let amount = Amount { units: 150000000, precision: 8 };
    let group = nonces(1, 10, 99);

    let on_ethereum = constructor
        .make_fill_order(Blockchain::Ethereum, &PublicKey::Ethereum(eth_key()), &group)
        .unwrap();
    assert_eq!(
        on_ethereum,
        FillOrder::Ethereum(eth::FillOrder::new(
            EthAddress::new(ETH_ADDRESS).unwrap(),
            Asset::ETH,
            Asset::BTC,
            Nonce::Value(1),
            Nonce::Crosschain,
            amount,
            Rate::MinOrderRate,
            Rate::MaxOrderRate,
            Rate::MinOrderRate,
            Nonce::Value(99),
        ))
    );
    assert_eq!(on_ethereum.blockchain(), Blockchain::Ethereum);
    assert_eq!(on_ethereum.nonce_from(), Nonce::Value(1));
    assert_eq!(on_ethereum.nonce_to(), Nonce::Crosschain);
    assert_eq!(on_ethereum.clone(), on_ethereum);

    let on_bitcoin = constructor
        .make_fill_order(Blockchain::Bitcoin, &PublicKey::Bitcoin(btc_key()), &group)
        .unwrap();
    assert_eq!(
        on_bitcoin,
        FillOrder::Bitcoin(btc::FillOrder::new(Nonce::Crosschain, Nonce::Value(10)))
    );
    // Bitcoin asks nothing of the key
    assert_eq!(
        constructor.make_fill_order(Blockchain::Bitcoin, &PublicKey::NEO(neo_key()), &group),
        Ok(on_bitcoin)
    );

    let on_neo = constructor
        .make_fill_order(Blockchain::NEO, &PublicKey::NEO(neo_key()), &group)
        .unwrap();
    assert_eq!(
        on_neo,
        FillOrder::NEO(neo::FillOrder::new(
            neo_key(),
            Asset::ETH,
            Asset::BTC,
            Nonce::Crosschain,
            Nonce::Crosschain,
            amount,
            Rate::MinOrderRate,
            Rate::MaxOrderRate,
            Rate::MinOrderRate,
            Nonce::Value(99),
        ))
    );
}

#[test]
fn fill_order_refuses_a_key_of_another_kind() {
    let state = state();
    let constructor = market_request("ETH_BTC", "1.5").make_constructor(&state).unwrap();
    let group = nonces(1, 10, 99);
    assert_eq!(
        constructor.make_fill_order(Blockchain::Ethereum, &PublicKey::Bitcoin(btc_key()), &group),
        Err(ProtocolError::KeyConversionFailure)
    );
    assert_eq!(
        constructor.make_fill_order(Blockchain::Ethereum, &PublicKey::NEO(neo_key()), &group),
        Err(ProtocolError::KeyConversionFailure)
    );
    assert_eq!(
        constructor.make_fill_order(Blockchain::NEO, &PublicKey::Ethereum(eth_key()), &group),
        Err(ProtocolError::KeyConversionFailure)
    );
    assert_eq!(
        constructor.make_fill_order(Blockchain::NEO, &PublicKey::Bitcoin(btc_key()), &group),
        Err(ProtocolError::KeyConversionFailure)
    );
}

#[test]
fn market_order_on_two_blockchains_is_signed_twice_per_combination() {
    let state = state();
    let constructor = market_request("ETH_BTC", "1.5").make_constructor(&state).unwrap();
    let combinations = constructor.make_payload_nonces(&state, 1600000000).unwrap();
    assert_eq!(combinations.len(), 6);
    let keys = all_keys();

    let orders = constructor.fill_orders(&keys, &combinations).unwrap();
    assert_eq!(orders.len(), 2 * combinations.len());
    for (n, group) in combinations.iter().enumerate() {
        let on_ethereum = &orders[n];
        let on_bitcoin = &orders[combinations.len() + n];
        assert_eq!(
            *on_ethereum,
            constructor
                .make_fill_order(Blockchain::Ethereum, &PublicKey::Ethereum(eth_key()), group)
                .unwrap()
        );
        assert_eq!(
            *on_bitcoin,
            constructor
                .make_fill_order(Blockchain::Bitcoin, &PublicKey::Bitcoin(btc_key()), group)
                .unwrap()
        );
        assert_eq!(on_ethereum.blockchain(), Blockchain::Ethereum);
        assert_eq!(on_bitcoin.blockchain(), Blockchain::Bitcoin);
    }

    let signed = signed(orders.len());
    let signatures = constructor.blockchain_signatures(&keys, &combinations, &signed).unwrap();
    assert_eq!(signatures.len(), 2 * combinations.len());
    for (k, signature) in signatures.iter().enumerate() {
        let on_ethereum = k < combinations.len();
        let group = combinations[k % combinations.len()];
        let (from, to) = match (group.nonce_from, group.nonce_to) {
            (Nonce::Value(from), Nonce::Value(to)) => (from as i64, to as i64),
            _ => unreachable!(),
        };
        assert_eq!(
            *signature,
            BlockchainSignature {
                blockchain: if on_ethereum { Blockchain::Ethereum } else { Blockchain::Bitcoin },
                nonce_from: if on_ethereum { from } else { 4294967295 },
                nonce_to: if on_ethereum { 4294967295 } else { to },
                public_key: K1.to_string(),
                signature: format!("sig{}", k),
                r: format!("r{}", k),
            }
        );
    }
}

#[test]
fn market_on_one_blockchain_is_signed_once_per_combination() {
    let state = state();
    let constructor = market_request("ETH_USDC", "1").make_constructor(&state).unwrap();
    let combinations = constructor.make_payload_nonces(&state, 5).unwrap();
    assert_eq!(combinations, vec![nonces(1, 7, 5), nonces(2, 7, 5)]);
    let orders = constructor.fill_orders(&all_keys(), &combinations).unwrap();
    assert_eq!(orders.len(), 2);
    assert_eq!(orders[0].nonce_from(), Nonce::Value(1));
    assert_eq!(orders[0].nonce_to(), Nonce::Value(7));
    assert_eq!(orders[1].nonce_from(), Nonce::Value(2));
    assert_eq!(constructor.fill_orders(&all_keys(), &[]), Ok(vec![]));
}

#[test]
fn signing_is_unavailable_without_keys_or_signatures() {
    let state = state();
    let constructor = market_request("ETH_BTC", "1.5").make_constructor(&state).unwrap();
    let combinations = vec![nonces(1, 10, 5)];
    let no_bitcoin = SignerKeys { ethereum: Some(eth_key()), bitcoin: None, neo: Some(neo_key()) };
    assert_eq!(
        constructor.fill_orders(&no_bitcoin, &combinations),
        Err(ProtocolError::SigningUnavailable)
    );
    assert_eq!(
        constructor.blockchain_signatures(&no_bitcoin, &combinations, &signed(2)),
        Err(ProtocolError::SigningUnavailable)
    );
    let keys = all_keys();
    assert_eq!(
        constructor.blockchain_signatures(&keys, &combinations, &signed(1)),
        Err(ProtocolError::SigningUnavailable)
    );
    assert_eq!(
        constructor.blockchain_signatures(&keys, &combinations, &signed(3)),
        Err(ProtocolError::SigningUnavailable)
    );
    assert!(constructor.blockchain_signatures(&keys, &combinations, &signed(2)).is_ok());
}

#[test]
fn limit_order_is_signed_once_per_blockchain() {
    let state = state();
    let sale = limit_request("ETH_BTC", BuyOrSell::Sell, "2", "0.03")
        .make_constructor(&state)
        .unwrap();
    let group = sale.make_payload_nonces(&state, 5).unwrap();
    let keys = all_keys();
    let orders = sale.fill_orders(&keys, &group).unwrap();
    assert_eq!(orders.len(), 2);
    assert_eq!(
        orders[0],
        sale.make_fill_order(Blockchain::Ethereum, &PublicKey::Ethereum(eth_key()), &group)
            .unwrap()
    );
    assert_eq!(
        orders[1],
        FillOrder::Bitcoin(btc::FillOrder::new(Nonce::Crosschain, Nonce::Value(10)))
    );
    let signatures = sale.blockchain_signatures(&keys, &group, &signed(2)).unwrap();
    assert_eq!(signatures.len(), 2);
    assert_eq!(signatures[0].blockchain, Blockchain::Ethereum);
    assert_eq!(signatures[1].blockchain, Blockchain::Bitcoin);
    assert_eq!(signatures[1].signature, "sig1");
    assert_eq!(
        sale.blockchain_signatures(&keys, &group, &signed(1)),
        Err(ProtocolError::SigningUnavailable)
    );
    assert_eq!(sale.settlement().source, sale.source);
}

#[test]
fn empty_request_signature() {
    let empty = RequestPayloadSignature::empty();
    assert_eq!(empty.signed_digest, "");
    assert_eq!(empty.public_key, "");
    assert_eq!(empty.clone(), empty);
}

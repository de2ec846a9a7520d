use nash_protocol::errors::ProtocolError;
use nash_protocol::protocol::place_order::types::{map_crosschain, order_nonce};
use nash_protocol::text::{i64_to_text, u64_to_text};
use nash_protocol::types::amount::{parse_units, Amount, AssetAmount};
use nash_protocol::types::asset::{Asset, AssetOfPrecision, Blockchain};
use nash_protocol::types::blockchain::{eth, neo};
use nash_protocol::types::keys::{Address, PublicKey, SignerKeys};
use nash_protocol::types::market::{reverse_market_name, Market};
use nash_protocol::types::nonce::{Nonce, CROSSCHAIN_NONCE};
use nash_protocol::types::order::{BuyOrSell, OrderCancellationPolicy, OrderRate};

const K1: &str = "0279be667ef9dcbbac55a06295ce870b07029bfcdb2dce28d959f2815b16f81798";
const R1: &str = "036b17d1f2e12c4247f8bce6e563a440f277037d812deb33a0f4a13945d898c296";
const ETH_ADDRESS: &str = "7e5f4552091a69125d5dfcb7b8c2659029395bdf";

fn asset(asset: Asset) -> AssetOfPrecision {
    AssetOfPrecision { asset, precision: 8 }
}

const ALL_ASSETS: [Asset; 8] = [
    Asset::ETH,
    Asset::BAT,
    Asset::USDC,
    Asset::USDT,
    Asset::BTC,
    Asset::NEO,
    Asset::GAS,
    Asset::NNN,
];

const ALL_CHAINS: [Blockchain; 3] = [Blockchain::Ethereum, Blockchain::Bitcoin, Blockchain::NEO];

#[test]
fn decimal_text_of_numbers() {
    assert_eq!(u64_to_text(0), "0");
    assert_eq!(u64_to_text(7), "7");
    assert_eq!(u64_to_text(10), "10");
    assert_eq!(u64_to_text(1234567890), "1234567890");
    assert_eq!(u64_to_text(u64::MAX), "18446744073709551615");
    assert_eq!(i64_to_text(0), "0");
    assert_eq!(i64_to_text(-1), "-1");
    assert_eq!(i64_to_text(i64::MAX), "9223372036854775807");
    assert_eq!(i64_to_text(i64::MIN), "-9223372036854775808");
}

#[test]
fn asset_names_and_blockchains() {
    assert_eq!(Asset::ETH.name(), "ETH");
    assert_eq!(Asset::BTC.name(), "BTC");
    assert_eq!(Asset::USDC.name(), "USDC");
    assert_eq!(Asset::ETH.blockchain(), Blockchain::Ethereum);
    assert_eq!(Asset::USDT.blockchain(), Blockchain::Ethereum);
    assert_eq!(Asset::BTC.blockchain(), Blockchain::Bitcoin);
    assert_eq!(Asset::NEO.blockchain(), Blockchain::NEO);
    assert_eq!(Asset::GAS.blockchain(), Blockchain::NEO);
    assert_eq!(Blockchain::Ethereum.name(), "ETH");
    assert_eq!(Blockchain::Bitcoin.name(), "BTC");
    assert_eq!(Blockchain::NEO.name(), "NEO");
}

#[test]
fn asset_names_are_distinct_and_hold_no_separator() {
    for (i, a) in ALL_ASSETS.iter().enumerate() {
        assert!(!a.name().is_empty());
        assert!(!a.name().contains('_'));
        for (j, b) in ALL_ASSETS.iter().enumerate() {
            assert_eq!(a.name() == b.name(), i == j);
        }
    }
}

#[test]
fn crosschain_nonce_exactly_where_the_chain_differs() {
    for a in ALL_ASSETS.iter() {
        for c in ALL_CHAINS.iter() {
            let nonce = map_crosschain(Nonce::Value(42), *c, *a);
            if a.blockchain() == *c {
                assert_eq!(nonce, Nonce::Value(42));
            } else {
                assert_eq!(nonce, Nonce::Crosschain);
            }
            assert_eq!(map_crosschain(Nonce::Crosschain, *c, *a), Nonce::Crosschain);
        }
    }
}

#[test]
fn nonce_wire_values() {
    assert_eq!(Nonce::Value(0).wire_value(), 0);
    assert_eq!(Nonce::Value(17).wire_value(), 17);
    assert_eq!(Nonce::Value(u32::MAX).wire_value(), 4294967295);
    assert_eq!(Nonce::Crosschain.wire_value(), 4294967295);
    assert_eq!(CROSSCHAIN_NONCE, 0xffff_ffff);
}

#[test]
fn order_nonce_is_the_time_cut_to_32_bits() {
    assert_eq!(order_nonce(0), 0);
    assert_eq!(order_nonce(1600000000), 1600000000);
    assert_eq!(order_nonce(4294967295), 4294967295);
    assert_eq!(order_nonce(4294967296), 0);
    assert_eq!(order_nonce(4294967296 + 5), 5);
    assert_eq!(order_nonce(1600000000000), 2272165888);
    assert_eq!(order_nonce(-1), 4294967295);
    assert_eq!(order_nonce(i64::MIN), 0);
}

#[test]
fn amounts_are_read_at_the_precision_of_the_asset() {
    assert_eq!(parse_units("1.5", 8), Some(150000000));
    assert_eq!(parse_units("1", 8), Some(100000000));
    assert_eq!(parse_units("0", 8), Some(0));
    assert_eq!(parse_units("0.00000001", 8), Some(1));
    assert_eq!(parse_units("007.10", 2), Some(710));
    assert_eq!(parse_units("12", 0), Some(12));
    assert_eq!(parse_units("18446744073709551615", 0), Some(u64::MAX));
    assert_eq!(parse_units("184467440737.09551615", 8), Some(u64::MAX));
}

#[test]
fn amounts_that_cannot_be_represented_are_refused() {
    assert_eq!(parse_units("", 8), None);
    assert_eq!(parse_units("-1", 8), None);
    assert_eq!(parse_units("+1", 8), None);
    assert_eq!(parse_units("1.", 8), None);
    assert_eq!(parse_units(".5", 8), None);
    assert_eq!(parse_units("1.2.3", 8), None);
    assert_eq!(parse_units("1,5", 8), None);
    assert_eq!(parse_units("abc", 8), None);
    assert_eq!(parse_units("1e5", 8), None);
    assert_eq!(parse_units(" 1", 8), None);
    assert_eq!(parse_units("1.123456789", 8), None);
    assert_eq!(parse_units("1.5", 0), None);
    assert_eq!(parse_units("18446744073709551616", 0), None);
    assert_eq!(parse_units("184467440737.09551616", 8), None);
    assert_eq!(parse_units("99999999999999999999999999", 8), None);
    assert_eq!(parse_units("1", 255), None);
    assert_eq!(parse_units("0", 255), Some(0));
}

#[test]
fn with_amount_gives_the_amount_of_the_asset() {
    let eth = asset(Asset::ETH);
    assert_eq!(
        eth.with_amount("1.5"),
        Ok(AssetAmount { asset: eth, amount: Amount { units: 150000000, precision: 8 } })
    );
    assert_eq!(eth.with_amount("-1.5"), Err(ProtocolError::InvalidAmount));
    assert_eq!(eth.with_amount("1.123456789"), Err(ProtocolError::InvalidAmount));
}

#[test]
fn amounts_are_written_with_all_digits_of_the_precision() {
    assert_eq!(Amount { units: 150000000, precision: 8 }.to_text(), "1.50000000");
    assert_eq!(Amount { units: 1, precision: 8 }.to_text(), "0.00000001");
    assert_eq!(Amount { units: 0, precision: 8 }.to_text(), "0.00000000");
    assert_eq!(Amount { units: 0, precision: 0 }.to_text(), "0");
    assert_eq!(Amount { units: 12, precision: 0 }.to_text(), "12");
    assert_eq!(Amount { units: 710, precision: 2 }.to_text(), "7.10");
    assert_eq!(Amount { units: 5, precision: 1 }.to_text(), "0.5");
    assert_eq!(Amount { units: u64::MAX, precision: 8 }.to_text(), "184467440737.09551615");
    assert_eq!(Amount { units: 7, precision: 20 }.to_text(), format!("0.{:0>20}", 7));
}

#[test]
fn written_amounts_are_read_back() {
    for units in [0u64, 1, 9, 10, 99, 12345678, 100000000, u64::MAX] {
        for precision in [0u8, 1, 2, 8, 18, 30] {
            let text = Amount { units, precision }.to_text();
            assert_eq!(parse_units(&text, precision), Some(units));
        }
    }
}

#[test]
fn exchange_rounds_down_to_the_precision_of_the_destination() {
    let eth = asset(Asset::ETH);
    let btc = asset(Asset::BTC);
    let two = eth.with_amount("2").unwrap();
    let rate = OrderRate { inner: btc.with_amount("0.03").unwrap().amount };
    assert_eq!(
        two.exchange_at(&rate, btc),
        Ok(AssetAmount { asset: btc, amount: Amount { units: 6000000, precision: 8 } })
    );
    let tiny = eth.with_amount("0.00000001").unwrap();
    assert_eq!(
        tiny.exchange_at(&rate, btc),
        Ok(AssetAmount { asset: btc, amount: Amount { units: 0, precision: 8 } })
    );
    let third = OrderRate { inner: Amount { units: 33333333, precision: 8 } };
    let ten = eth.with_amount("10").unwrap();
    assert_eq!(ten.exchange_at(&third, btc).unwrap().amount.units, 333333330);
}

#[test]
fn exchange_refuses_what_does_not_fit() {
    let eth = asset(Asset::ETH);
    let btc = asset(Asset::BTC);
    let coarse = AssetOfPrecision { asset: Asset::BTC, precision: 2 };
    let two = eth.with_amount("2").unwrap();
    let rate = OrderRate { inner: btc.with_amount("0.03").unwrap().amount };
    assert_eq!(two.exchange_at(&rate, coarse), Err(ProtocolError::InvalidAmount));
    let huge = AssetAmount { asset: eth, amount: Amount { units: u64::MAX, precision: 0 } };
    let big_rate = OrderRate { inner: Amount { units: 2, precision: 8 } };
    assert_eq!(huge.exchange_at(&big_rate, btc), Err(ProtocolError::InvalidAmount));
}

#[test]
fn market_names_and_inversion() {
    let market = Market::new(asset(Asset::ETH), asset(Asset::BTC));
    assert_eq!(market.market_name(), "ETH_BTC");
    let inverted = market.invert();
    assert_eq!(inverted.market_name(), "BTC_ETH");
    assert_eq!(inverted.asset_a, market.asset_b);
    assert_eq!(inverted.asset_b, market.asset_a);
    assert_eq!(inverted.invert(), market);
}

#[test]
fn reversed_names() {
    assert_eq!(reverse_market_name("ETH_BTC"), "BTC_ETH");
    assert_eq!(reverse_market_name("BTC_ETH"), "ETH_BTC");
    assert_eq!(reverse_market_name("ETH"), "ETH");
    assert_eq!(reverse_market_name(""), "");
    assert_eq!(reverse_market_name("a_b_c"), "c_b_a");
    assert_eq!(reverse_market_name("_a"), "a_");
    assert_eq!(reverse_market_name("a_"), "_a");
    assert_eq!(reverse_market_name("_"), "_");
    for a in ALL_ASSETS.iter() {
        for b in ALL_ASSETS.iter() {
            let market = Market::new(asset(*a), asset(*b));
            assert_eq!(reverse_market_name(&market.market_name()), market.invert().market_name());
        }
    }
}

#[test]
fn blockchains_of_a_market() {
    assert_eq!(
        Market::new(asset(Asset::ETH), asset(Asset::BTC)).blockchains(),
        vec![Blockchain::Ethereum, Blockchain::Bitcoin]
    );
    assert_eq!(
        Market::new(asset(Asset::BTC), asset(Asset::ETH)).blockchains(),
        vec![Blockchain::Bitcoin, Blockchain::Ethereum]
    );
    assert_eq!(
        Market::new(asset(Asset::ETH), asset(Asset::USDC)).blockchains(),
        vec![Blockchain::Ethereum]
    );
    assert_eq!(
        Market::new(asset(Asset::NEO), asset(Asset::GAS)).blockchains(),
        vec![Blockchain::NEO]
    );
}

#[test]
fn names_of_sides_and_policies() {
    assert_eq!(BuyOrSell::Buy.name(), "BUY");
    assert_eq!(BuyOrSell::Sell.name(), "SELL");
    assert_eq!(OrderCancellationPolicy::FillOrKill.name(), "FILL_OR_KILL");
    assert_eq!(OrderCancellationPolicy::GoodTilCancelled.name(), "GOOD_TIL_CANCELLED");
    assert_eq!(OrderCancellationPolicy::GoodTilTime(5).name(), "GOOD_TIL_TIME");
    assert_eq!(OrderCancellationPolicy::ImmediateOrCancel.name(), "IMMEDIATE_OR_CANCEL");
    assert_eq!(OrderCancellationPolicy::GoodTilTime(5).cancel_at(), Some(5));
    assert_eq!(OrderCancellationPolicy::FillOrKill.cancel_at(), None);
    assert_eq!(OrderCancellationPolicy::GoodTilCancelled.cancel_at(), None);
    assert_eq!(OrderCancellationPolicy::ImmediateOrCancel.cancel_at(), None);
}

#[test]
fn ethereum_addresses_hold_forty_hexadecimal_digits() {
    assert_eq!(eth::Address::new(ETH_ADDRESS).unwrap().as_str(), ETH_ADDRESS);
    assert!(eth::Address::new("7E5F4552091A69125D5DFCB7B8C2659029395BDF").is_ok());
    assert_eq!(eth::Address::new(""), Err(ProtocolError::KeyConversionFailure));
    assert_eq!(
        eth::Address::new("0x7e5f4552091a69125d5dfcb7b8c2659029395bdf"),
        Err(ProtocolError::KeyConversionFailure)
    );
    assert_eq!(
        eth::Address::new("7e5f4552091a69125d5dfcb7b8c2659029395bdg"),
        Err(ProtocolError::KeyConversionFailure)
    );
    assert_eq!(
        eth::Address::new("7e5f4552091a69125d5dfcb7b8c2659029395bd"),
        Err(ProtocolError::KeyConversionFailure)
    );
}

#[test]
fn ethereum_and_neo_keys() {
    let address = eth::Address::new(ETH_ADDRESS).unwrap();
    let key = eth::PublicKey::new(K1, address.clone()).unwrap();
    assert_eq!(key.to_hex(), K1);
    assert_eq!(key.to_address(), Ok(address.clone()));
    assert_eq!(
        eth::PublicKey::new("zz", address.clone()),
        Err(ProtocolError::KeyConversionFailure)
    );

    let neo_address = neo::Address::new("AK2nJJpJr6o664CWJKi1QRXjqeic2zRp8y").unwrap();
    let neo_key = neo::PublicKey::new(R1, neo_address.clone()).unwrap();
    assert_eq!(neo_key.to_hex(), R1);
    assert_eq!(neo_key.to_address(), Ok(neo_address.clone()));
    assert_eq!(
        neo::PublicKey::new("no key", neo_address.clone()),
        Err(ProtocolError::KeyConversionFailure)
    );
    let uncompressed = "046b17d1f2e12c4247f8bce6e563a440f277037d812deb33a0f4a13945d898c2964fe342e2fe1a7f9b8ee7eb4a7c0f9e162bce33576b315ececbb6406837bf51f5";
    let from_uncompressed = neo::PublicKey::new(uncompressed, neo_address).unwrap();
    assert_eq!(from_uncompressed.to_hex(), R1);
    assert_ne!(from_uncompressed.to_hex(), uncompressed);
}

#[test]
fn keys_of_any_blockchain() {
    let address = eth::Address::new(ETH_ADDRESS).unwrap();
    let eth_key = eth::PublicKey::new(K1, address.clone()).unwrap();
    let btc_key = nash_protocol::types::blockchain::btc::PublicKey::new(K1).unwrap();
    let neo_address = neo::Address::new("AK2nJJpJr6o664CWJKi1QRXjqeic2zRp8y").unwrap();
    let neo_key = neo::PublicKey::new(R1, neo_address.clone()).unwrap();

    let keys = SignerKeys {
        ethereum: Some(eth_key.clone()),
        bitcoin: Some(btc_key.clone()),
        neo: None,
    };
    assert_eq!(
        keys.child_public_key(Blockchain::Ethereum),
        Ok(PublicKey::Ethereum(eth_key.clone()))
    );
    assert_eq!(keys.child_public_key(Blockchain::Bitcoin), Ok(PublicKey::Bitcoin(btc_key.clone())));
    assert_eq!(keys.child_public_key(Blockchain::NEO), Err(ProtocolError::SigningUnavailable));
    assert_eq!(keys.clone(), keys);

    let generic = PublicKey::Ethereum(eth_key);
    assert_eq!(generic.blockchain(), Blockchain::Ethereum);
    assert_eq!(generic.to_hex(), K1);
    assert_eq!(generic.to_address(), Ok(Address::Ethereum(address.clone())));
    assert_eq!(generic.to_address().unwrap().to_ethereum(), Ok(address));
    assert_eq!(generic.to_neo(), Err(ProtocolError::KeyConversionFailure));

    let generic = PublicKey::Bitcoin(btc_key);
    assert_eq!(generic.blockchain(), Blockchain::Bitcoin);
    assert_eq!(generic.to_address(), Err(ProtocolError::KeyConversionFailure));

    let generic = PublicKey::NEO(neo_key.clone());
    assert_eq!(generic.blockchain(), Blockchain::NEO);
    assert_eq!(generic.to_neo(), Ok(neo_key));
    assert_eq!(generic.to_address(), Ok(Address::NEO(neo_address.clone())));
    assert_eq!(
        Address::NEO(neo_address).to_ethereum(),
        Err(ProtocolError::KeyConversionFailure)
    );
}

#[test]
fn every_failure_has_a_message() {
    let all = [
        ProtocolError::UnknownMarket,
        ProtocolError::InvalidAmount,
        ProtocolError::MissingNoncePool,
        ProtocolError::KeyConversionFailure,
        ProtocolError::SerializationFailure,
        ProtocolError::SigningUnavailable,
    ];
    for (i, a) in all.iter().enumerate() {
        assert!(!a.message().is_empty());
        for (j, b) in all.iter().enumerate() {
            assert_eq!(a.message() == b.message(), i == j);
        }
    }
}

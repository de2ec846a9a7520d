use nash_protocol::canonical::json::{JsonField, JsonValue};
use nash_protocol::canonical::names::{compare_names, NameOrder};
use nash_protocol::canonical::writer::{general_canonical_string, write_canonical};
use nash_protocol::errors::ProtocolError;
use nash_protocol::graphql::place_limit_order;
use nash_protocol::graphql::place_market_order;
use nash_protocol::protocol::place_order::types::{LimitOrderRequest, PayloadNonces};
use nash_protocol::protocol::place_orders::batch::multi_query_body;
use nash_protocol::protocol::place_orders::canonical::{
    limit_order_canonical_string, market_order_canonical_string,
};
use nash_protocol::protocol::place_orders::types::{
    LimitOrdersConstructor, LimitOrdersRequest, MarketOrdersRequest, MultiQueryBody,
    OrderSignatures,
};
use nash_protocol::protocol::signature::{
    BlockchainSignature, ChainSignature, RequestPayloadSignature,
};
use nash_protocol::state::State;
use nash_protocol::types::asset::{Asset, AssetOfPrecision, Blockchain};
use nash_protocol::types::blockchain::btc::PublicKey as BtcPublicKey;
use nash_protocol::types::blockchain::eth::{Address as EthAddress, PublicKey as EthPublicKey};
use nash_protocol::types::keys::SignerKeys;
use nash_protocol::types::market::Market;
use nash_protocol::types::nonce::Nonce;
use nash_protocol::types::order::{BuyOrSell, OrderCancellationPolicy};

const K1: &str = "0279be667ef9dcbbac55a06295ce870b07029bfcdb2dce28d959f2815b16f81798";
const ETH_ADDRESS: &str = "7e5f4552091a69125d5dfcb7b8c2659029395bdf";
const TIME: i64 = 1600000000;

fn asset(asset: Asset) -> AssetOfPrecision {
    AssetOfPrecision { asset, precision: 8 }
}

fn keys() -> SignerKeys {
    SignerKeys {
        ethereum: Some(EthPublicKey::new(K1, EthAddress::new(ETH_ADDRESS).unwrap()).unwrap()),
        bitcoin: Some(BtcPublicKey::new(K1).unwrap()),
        neo: None,
    }
}

fn state() -> State {
    let mut state = State::new(vec![
        Market::new(asset(Asset::ETH), asset(Asset::BTC)),
        Market::new(asset(Asset::ETH), asset(Asset::USDC)),
    ]);
    state.set_asset_nonces(Asset::ETH, vec![1, 2]);
    state.set_asset_nonces(Asset::BTC, vec![10, 20, 30]);
    state.set_asset_nonces(Asset::USDC, vec![7]);
    state.signer = Some(keys());
    state
}

fn limit_request(
    market: &str,
    side: BuyOrSell,
    amount: &str,
    price: &str,
    policy: OrderCancellationPolicy,
) -> LimitOrderRequest {
    LimitOrderRequest {
        client_order_id: None,
        market: market.to_string(),
        buy_or_sell: side,
        amount: amount.to_string(),
        price: price.to_string(),
        cancellation_policy: policy,
        allow_taker: true,
    }
}

fn batch_of_three() -> LimitOrdersConstructor {
    LimitOrdersRequest {
        requests: vec![
            limit_request(
                "ETH_BTC",
                BuyOrSell::Sell,
                "1.5",
                "0.03",
                OrderCancellationPolicy::GoodTilCancelled,
            ),
            limit_request(
                "BTC_ETH",
                BuyOrSell::Buy,
                "2",
                "30",
                OrderCancellationPolicy::GoodTilTime(1700000000),
            ),
            limit_request(
                "ETH_USDC",
                BuyOrSell::Sell,
                "3",
                "400",
                OrderCancellationPolicy::ImmediateOrCancel,
            ),
        ],
    }
    .make_constructor(&state())
    .unwrap()
}

fn chain_signatures(tag: &str, n: usize) -> Vec<ChainSignature> {
    (0..n)
        .map(|i| ChainSignature { signature: format!("{}-sig{}", tag, i), r: format!("{}-r{}", tag, i) })
        .collect()
}

fn request_signature(tag: &str) -> RequestPayloadSignature {
    RequestPayloadSignature { signed_digest: format!("digest-{}", tag), public_key: "pk".to_string() }
}

fn signatures_of_three() -> Vec<OrderSignatures> {
    vec![
        OrderSignatures { blockchain: chain_signatures("a", 2), request: request_signature("a") },
        OrderSignatures { blockchain: chain_signatures("b", 2), request: request_signature("b") },
        OrderSignatures { blockchain: chain_signatures("c", 1), request: request_signature("c") },
    ]
}

fn field(name: &str, value: JsonValue) -> JsonField {
    JsonField::new(name, value)
}

fn text(s: &str) -> JsonValue {
    JsonValue::text(s)
}

fn names(list: &[&str]) -> Vec<String> {
    list.iter().map(|s| s.to_string()).collect()
}

fn entry<'a>(body: &'a MultiQueryBody, name: &str) -> &'a JsonValue {
    let found: Vec<&JsonField> = body.variables.iter().filter(|f| f.name == name).collect();
    assert_eq!(found.len(), 1);
    &found[0].value
}

fn member<'a>(value: &'a JsonValue, name: &str) -> &'a JsonValue {
    match value {
        JsonValue::Object(fields) => {
            let found: Vec<&JsonField> = fields.iter().filter(|f| f.name == name).collect();
            assert_eq!(found.len(), 1);
            &found[0].value
        }
        _ => panic!("no object"),
    }
}

#[test]
fn names_are_ordered_as_in_a_dictionary() {
    assert_eq!(compare_names("a", "b"), NameOrder::Before);
    assert_eq!(compare_names("b", "a"), NameOrder::After);
    assert_eq!(compare_names("a", "a"), NameOrder::Same);
    assert_eq!(compare_names("", ""), NameOrder::Same);
    assert_eq!(compare_names("", "a"), NameOrder::Before);
    assert_eq!(compare_names("a", ""), NameOrder::After);
    assert_eq!(compare_names("nonce_from", "nonce_order"), NameOrder::Before);
    assert_eq!(compare_names("nonce_to", "nonce_order"), NameOrder::After);
    assert_eq!(compare_names("currency", "currency_a"), NameOrder::Before);
    assert_eq!(compare_names("Z", "a"), NameOrder::Before);
    let words = ["", "a", "ab", "b", "é", "Z", "payload10", "payload2"];
    for a in words {
        for b in words {
            let expected = match a.cmp(b) {
                std::cmp::Ordering::Less => NameOrder::Before,
                std::cmp::Ordering::Equal => NameOrder::Same,
                std::cmp::Ordering::Greater => NameOrder::After,
            };
            assert_eq!(compare_names(a, b), expected);
        }
    }
}

#[test]
fn canonical_text_of_values() {
    let none: Vec<String> = vec![];
    assert_eq!(write_canonical(&JsonValue::Null, &none).unwrap(), "null");
    assert_eq!(write_canonical(&JsonValue::Bool(true), &none).unwrap(), "true");
    assert_eq!(write_canonical(&JsonValue::Bool(false), &none).unwrap(), "false");
    assert_eq!(write_canonical(&JsonValue::Integer(-12), &none).unwrap(), "-12");
    assert_eq!(write_canonical(&JsonValue::Integer(0), &none).unwrap(), "0");
    assert_eq!(write_canonical(&text("a"), &none).unwrap(), "\"a\"");
    assert_eq!(write_canonical(&text(""), &none).unwrap(), "\"\"");
    assert_eq!(write_canonical(&JsonValue::List(vec![]), &none).unwrap(), "[]");
    assert_eq!(write_canonical(&JsonValue::Object(vec![]), &none).unwrap(), "{}");
    assert_eq!(
        write_canonical(
            &JsonValue::List(vec![JsonValue::Integer(1), text("x"), JsonValue::Null]),
            &none
        )
        .unwrap(),
        "[1,\"x\",null]"
    );
}

#[test]
fn texts_are_escaped_as_json_asks() {
    let none: Vec<String> = vec![];
    assert_eq!(write_canonical(&text("say \"hi\""), &none).unwrap(), "\"say \\\"hi\\\"\"");
    assert_eq!(write_canonical(&text("a\\b"), &none).unwrap(), "\"a\\\\b\"");
    assert_eq!(write_canonical(&text("line\nbreak"), &none).unwrap(), "\"line\\nbreak\"");
    let object = JsonValue::Object(vec![field("a\"b", JsonValue::Integer(1))]);
    assert_eq!(write_canonical(&object, &none).unwrap(), "{\"a\\\"b\":1}");
    for s in ["", "plain", "ünï", "tab\t", "\u{1}", "{\"a\":1}"] {
        assert_eq!(write_canonical(&text(s), &none).unwrap(), serde_json::to_string(s).unwrap());
    }
}

#[test]
fn members_are_written_in_the_order_of_their_names() {
    let none: Vec<String> = vec![];
    let object = JsonValue::Object(vec![
        field("b", JsonValue::Integer(2)),
        field("c", JsonValue::Object(vec![field("z", JsonValue::Null), field("y", text("t"))])),
        field("a", JsonValue::List(vec![JsonValue::Object(vec![
            field("k2", JsonValue::Bool(true)),
            field("k1", JsonValue::Bool(false)),
        ])])),
    ]);
    assert_eq!(
        write_canonical(&object, &none).unwrap(),
        "{\"a\":[{\"k1\":false,\"k2\":true}],\"b\":2,\"c\":{\"y\":\"t\",\"z\":null}}"
    );
}

#[test]
fn excluded_members_are_left_out_at_every_depth() {
    let object = JsonValue::Object(vec![
        field("keep", JsonValue::Integer(1)),
        field("drop", JsonValue::Integer(2)),
        field(
            "inner",
            JsonValue::Object(vec![field("drop", text("x")), field("also", JsonValue::Null)]),
        ),
        field("last", JsonValue::List(vec![JsonValue::Object(vec![field("drop", text("y"))])])),
    ]);
    assert_eq!(
        write_canonical(&object, &names(&["drop"])).unwrap(),
        "{\"inner\":{\"also\":null},\"keep\":1,\"last\":[{}]}"
    );
    assert_eq!(
        write_canonical(&object, &names(&["drop", "keep", "inner", "last"])).unwrap(),
        "{}"
    );
    assert_eq!(
        general_canonical_string("some_operation", &object, &names(&["drop", "inner", "last"]))
            .unwrap(),
        "some_operation,{\"keep\":1}"
    );
}

#[test]
fn a_document_with_two_members_of_one_name_has_no_canonical_text() {
    let none: Vec<String> = vec![];
    let twice = JsonValue::Object(vec![
        field("a", JsonValue::Integer(1)),
        field("b", JsonValue::Integer(2)),
        field("a", JsonValue::Integer(1)),
    ]);
    assert_eq!(write_canonical(&twice, &none), Err(ProtocolError::SerializationFailure));
    assert_eq!(
        general_canonical_string("op", &twice, &none),
        Err(ProtocolError::SerializationFailure)
    );
    // members that are excluded may repeat
    assert_eq!(write_canonical(&twice, &names(&["a"])).unwrap(), "{\"b\":2}");
    let nested = JsonValue::List(vec![JsonValue::Object(vec![field(
        "x",
        JsonValue::Object(vec![field("d", JsonValue::Null), field("d", JsonValue::Null)]),
    )])]);
    assert_eq!(write_canonical(&nested, &none), Err(ProtocolError::SerializationFailure));
    assert_eq!(write_canonical(&nested, &names(&["x"])).unwrap(), "[{}]");
}

#[test]
fn canonical_string_does_not_depend_on_the_order_of_members() {
    let excluded = names(&["blockchain_signatures"]);
    let one = JsonValue::Object(vec![
        field("market_name", text("ETH_BTC")),
        field("blockchain_signatures", JsonValue::List(vec![text("s1")])),
        field(
            "amount",
            JsonValue::Object(vec![field("amount", text("1.5")), field("currency", text("ETH"))]),
        ),
        field("timestamp", JsonValue::Integer(5)),
    ]);
    let other = JsonValue::Object(vec![
        field("timestamp", JsonValue::Integer(5)),
        field(
            "amount",
            JsonValue::Object(vec![field("currency", text("ETH")), field("amount", text("1.5"))]),
        ),
        field("market_name", text("ETH_BTC")),
        field("blockchain_signatures", JsonValue::List(vec![text("s2"), text("s3")])),
    ]);
    let first = general_canonical_string("place_limit_order", &one, &excluded).unwrap();
    assert_eq!(first, general_canonical_string("place_limit_order", &one, &excluded).unwrap());
    assert_eq!(first, general_canonical_string("place_limit_order", &other, &excluded).unwrap());
    assert_eq!(
        first,
        "place_limit_order,{\"amount\":{\"amount\":\"1.5\",\"currency\":\"ETH\"},\"market_name\":\"ETH_BTC\",\"timestamp\":5}"
    );
    assert_ne!(first, general_canonical_string("place_market_order", &one, &excluded).unwrap());
}

#[test]
fn limit_order_requests_before_signing() {
    let batch = batch_of_three();
    let requests = batch.graphql_request(TIME, Some("dev".to_string())).unwrap();
    assert_eq!(requests.len(), 3);
    for (i, request) in requests.iter().enumerate() {
        assert_eq!(request.payload.nonce_order, TIME + i as i64);
        assert_eq!(request.payload.timestamp, TIME);
        assert_eq!(request.payload.nonce_from, 1234);
        assert_eq!(request.payload.nonce_to, 1234);
        assert_eq!(request.payload.blockchain_signatures, vec![]);
        assert_eq!(request.affiliate, Some("dev".to_string()));
        assert_eq!(request.signature, RequestPayloadSignature::empty());
        assert_eq!(request.payload.client_order_id, None);
        assert!(request.payload.allow_taker);
    }
    assert_eq!(requests[0].payload.market_name, "ETH_BTC");
    assert_eq!(requests[0].payload.buy_or_sell, BuyOrSell::Sell);
    assert_eq!(requests[0].payload.amount.amount, "1.50000000");
    assert_eq!(requests[0].payload.amount.currency, "ETH");
    assert_eq!(requests[0].payload.limit_price.amount, "0.03000000");
    assert_eq!(requests[0].payload.limit_price.currency_a, "BTC");
    assert_eq!(requests[0].payload.limit_price.currency_b, "ETH");
    assert_eq!(requests[1].payload.market_name, "BTC_ETH");
    assert_eq!(requests[1].payload.buy_or_sell, BuyOrSell::Buy);
    assert_eq!(requests[1].payload.amount.amount, "2.00000000");
    assert_eq!(requests[1].payload.amount.currency, "BTC");
    assert_eq!(requests[1].payload.limit_price.amount, "30.00000000");
    assert_eq!(requests[1].payload.limit_price.currency_a, "ETH");
    assert_eq!(requests[1].payload.limit_price.currency_b, "BTC");
    assert_eq!(requests[2].payload.market_name, "ETH_USDC");
}

#[test]
fn nonce_of_the_order_is_the_time_cut_to_32_bits_plus_the_place() {
    let batch = batch_of_three();
    let requests = batch.graphql_request(4294967296 + 9, None).unwrap();
    assert_eq!(requests[0].payload.nonce_order, 9);
    assert_eq!(requests[1].payload.nonce_order, 10);
    assert_eq!(requests[2].payload.nonce_order, 11);
    assert_eq!(requests[2].payload.timestamp, 4294967296 + 9);
    let requests = batch.graphql_request(4294967295, None).unwrap();
    assert_eq!(requests[0].payload.nonce_order, 4294967295);
    assert_eq!(requests[1].payload.nonce_order, 4294967296);
    assert_eq!(requests[0].affiliate, None);
}

#[test]
fn cancel_at_only_for_good_until_time() {
    let batch = batch_of_three();
    let requests = batch.graphql_request(TIME, None).unwrap();
    assert_eq!(requests[0].payload.cancel_at, None);
    assert_eq!(requests[1].payload.cancel_at, Some("1700000000".to_string()));
    assert_eq!(requests[2].payload.cancel_at, None);
    assert_eq!(
        requests[1].payload.cancellation_policy,
        OrderCancellationPolicy::GoodTilTime(1700000000)
    );
    for policy in [
        OrderCancellationPolicy::FillOrKill,
        OrderCancellationPolicy::GoodTilCancelled,
        OrderCancellationPolicy::ImmediateOrCancel,
    ] {
        let batch = LimitOrdersRequest {
            requests: vec![limit_request("ETH_BTC", BuyOrSell::Sell, "1", "1", policy)],
        }
        .make_constructor(&state())
        .unwrap();
        let request = &batch.graphql_request(TIME, None).unwrap()[0];
        assert_eq!(request.payload.cancel_at, None);
        assert_eq!(member(&request.payload.to_json(), "cancel_at"), &JsonValue::Null);
    }
    for time in [0i64, -5, 1700000000, i64::MAX] {
        let batch = LimitOrdersRequest {
            requests: vec![limit_request(
                "ETH_BTC",
                BuyOrSell::Sell,
                "1",
                "1",
                OrderCancellationPolicy::GoodTilTime(time),
            )],
        }
        .make_constructor(&state())
        .unwrap();
        let request = &batch.graphql_request(TIME, None).unwrap()[0];
        assert_eq!(request.payload.cancel_at, Some(format!("{}", time)));
        assert_eq!(member(&request.payload.to_json(), "cancel_at"), &text(&format!("{}", time)));
    }
}

#[test]
fn canonical_string_of_a_limit_order() {
    let batch = batch_of_three();
    let requests = batch.graphql_request(TIME, None).unwrap();
    assert_eq!(
        limit_order_canonical_string(&requests[0]).unwrap(),
        "place_limit_order,{\"affiliate\":null,\"payload\":{\"allow_taker\":true,\"amount\":{\"amount\":\"1.50000000\",\"currency\":\"ETH\"},\"buy_or_sell\":\"SELL\",\"cancel_at\":null,\"cancellation_policy\":\"GOOD_TIL_CANCELLED\",\"client_order_id\":null,\"limit_price\":{\"amount\":\"0.03000000\",\"currency_a\":\"BTC\",\"currency_b\":\"ETH\"},\"market_name\":\"ETH_BTC\",\"nonce_from\":1234,\"nonce_order\":1600000000,\"nonce_to\":1234,\"timestamp\":1600000000}}"
    );
    let requests = batch.graphql_request(TIME, Some("dev\"1".to_string())).unwrap();
    assert_eq!(
        limit_order_canonical_string(&requests[1]).unwrap(),
        "place_limit_order,{\"affiliate\":\"dev\\\"1\",\"payload\":{\"allow_taker\":true,\"amount\":{\"amount\":\"2.00000000\",\"currency\":\"BTC\"},\"buy_or_sell\":\"BUY\",\"cancel_at\":\"1700000000\",\"cancellation_policy\":\"GOOD_TIL_TIME\",\"client_order_id\":null,\"limit_price\":{\"amount\":\"30.00000000\",\"currency_a\":\"ETH\",\"currency_b\":\"BTC\"},\"market_name\":\"BTC_ETH\",\"nonce_from\":1234,\"nonce_order\":1600000001,\"nonce_to\":1234,\"timestamp\":1600000000}}"
    );
}

#[test]
fn canonical_string_of_a_limit_order_is_the_same_after_signing() {
    let batch = batch_of_three();
    let state = state();
    let unsigned = batch.graphql_request(TIME, Some("dev".to_string())).unwrap();
    let signed = batch
        .signed_variables(TIME, &Some("dev".to_string()), &state, &signatures_of_three())
        .unwrap();
    assert_eq!(signed.len(), 3);
    for i in 0..3 {
        assert_ne!(signed[i], unsigned[i]);
        assert_eq!(
            limit_order_canonical_string(&signed[i]).unwrap(),
            limit_order_canonical_string(&unsigned[i]).unwrap()
        );
    }
    assert_ne!(
        limit_order_canonical_string(&signed[0]).unwrap(),
        limit_order_canonical_string(&signed[1]).unwrap()
    );
}

#[test]
fn market_order_request_and_its_canonical_string() {
    let state = state();
    let constructor = MarketOrdersRequest {
        client_order_id: Some("id-7".to_string()),
        market: "ETH_BTC".to_string(),
        amount: "1.5".to_string(),
    }
    .make_constructor(&state)
    .unwrap();
    let request = constructor.graphql_request(4294967296 + TIME, Some("dev".to_string())).unwrap();
    assert_eq!(
        request,
        place_market_order::Variables {
            payload: place_market_order::PlaceMarketOrderParams {
                buy_or_sell: BuyOrSell::Sell,
                client_order_id: Some("id-7".to_string()),
                market_name: "ETH_BTC".to_string(),
                amount: nash_protocol::graphql::CurrencyAmountParams {
                    amount: "1.50000000".to_string(),
                    currency: "ETH".to_string(),
                },
                nonce_from: Some(0),
                nonce_to: Some(0),
                nonce_order: TIME,
                timestamp: 4294967296 + TIME,
                blockchain_signatures: vec![],
            },
            affiliate: Some("dev".to_string()),
            signature: RequestPayloadSignature::empty(),
        }
    );
    let canonical = market_order_canonical_string(&request).unwrap();
    assert_eq!(
        canonical,
        "place_market_order,{\"affiliate\":\"dev\",\"payload\":{\"amount\":{\"amount\":\"1.50000000\",\"currency\":\"ETH\"},\"buy_or_sell\":\"SELL\",\"client_order_id\":\"id-7\",\"market_name\":\"ETH_BTC\",\"nonce_from\":0,\"nonce_order\":1600000000,\"nonce_to\":0,\"timestamp\":5894967296}}"
    );

    let combinations = constructor.make_payload_nonces(&state, TIME).unwrap();
    let orders = constructor.fill_orders(&keys(), &combinations).unwrap();
    let chain = chain_signatures("m", orders.len());
    let mutation = constructor
        .signed_graphql_request(
            combinations.clone(),
            4294967296 + TIME,
            Some("dev".to_string()),
            &keys(),
            &chain,
            request_signature("m"),
        )
        .unwrap();
    assert_eq!(mutation.operation_name, "PlaceMarketOrder");
    assert!(mutation.query.starts_with("mutation PlaceMarketOrder($payload: PlaceMarketOrderParams!"));
    assert!(mutation.query.contains("placeMarketOrder(payload: $payload, signature: $signature"));
    assert_eq!(mutation.variables.signature, request_signature("m"));
    assert_eq!(mutation.variables.affiliate, Some("dev".to_string()));
    assert_eq!(mutation.variables.payload.blockchain_signatures.len(), 2 * combinations.len());
    assert_eq!(
        mutation.variables.payload.blockchain_signatures,
        constructor.blockchain_signatures(&keys(), &combinations, &chain).unwrap()
    );
    assert_eq!(market_order_canonical_string(&mutation.variables).unwrap(), canonical);
    assert_eq!(mutation.variables.payload.market_name, request.payload.market_name);
    assert_eq!(mutation.variables.payload.amount, request.payload.amount);
    assert_eq!(mutation.variables.payload.nonce_order, request.payload.nonce_order);

    assert_eq!(
        constructor.signed_graphql_request(
            combinations.clone(),
            TIME,
            None,
            &keys(),
            &chain[1..],
            request_signature("m"),
        ),
        Err(ProtocolError::SigningUnavailable)
    );
    let no_keys = SignerKeys { ethereum: None, bitcoin: None, neo: None };
    assert_eq!(
        constructor.signed_graphql_request(
            combinations,
            TIME,
            None,
            &no_keys,
            &chain,
            request_signature("m"),
        ),
        Err(ProtocolError::SigningUnavailable)
    );
}

#[test]
fn signatures_as_documents() {
    let signature = BlockchainSignature {
        blockchain: Blockchain::Bitcoin,
        nonce_from: 4294967295,
        nonce_to: 10,
        public_key: "pk".to_string(),
        signature: "s".to_string(),
        r: "r".to_string(),
    };
    let none: Vec<String> = vec![];
    assert_eq!(
        write_canonical(&signature.to_json(), &none).unwrap(),
        "{\"blockchain\":\"BTC\",\"nonce_from\":4294967295,\"nonce_to\":10,\"public_key\":\"pk\",\"r\":\"r\",\"signature\":\"s\"}"
    );
    assert_eq!(
        write_canonical(&request_signature("x").to_json(), &none).unwrap(),
        "{\"public_key\":\"pk\",\"signed_digest\":\"digest-x\"}"
    );
    assert_eq!(signature.clone(), signature);
    assert_eq!(Nonce::Crosschain.wire_value(), signature.nonce_from);
}

fn expected_call(calls: &str, index: usize) -> String {
    format!(
        r#"
                {}
                response{}: placeLimitOrder(payload: ${}, signature: ${}, affiliateDeveloperCode: ${}) {{
                    id
                    status
                    ordersTillSignState,
                    buyOrSell,
                    market {{
                        name
                    }},
                    placedAt,
                    type
                }}
                "#,
        calls,
        index,
        format!("payload{}", index),
        format!("signature{}", index),
        format!("affiliate{}", index)
    )
}

fn expected_query(n: usize) -> String {
    let mut params = String::new();
    let mut calls = String::new();
    for index in 0..n {
        params = if index == 0 { params } else { format!("{}, ", params) };
        params = format!(
            "{}${}: PlaceLimitOrderParams!, ${}: Signature!, ${}: AffiliateDeveloperCode",
            params,
            format!("payload{}", index),
            format!("signature{}", index),
            format!("affiliate{}", index)
        );
        calls = expected_call(&calls, index);
    }
    format!(
        r#"
                mutation PlaceLimitOrder({}) {{
                    {}
                }}
            "#,
        params, calls
    )
}

#[test]
fn batch_of_three_limit_orders() {
    let batch = batch_of_three();
    let state = state();
    let signatures = signatures_of_three();
    let body = batch
        .signed_graphql_request(TIME, Some("dev".to_string()), &state, &signatures)
        .unwrap();
    assert_eq!(body.operation_name, "PlaceLimitOrder");
    assert_eq!(body.variables.len(), 9);
    let mut all_names: Vec<&str> = body.variables.iter().map(|f| f.name.as_str()).collect();
    assert_eq!(
        all_names,
        vec![
            "payload0",
            "signature0",
            "affiliate0",
            "payload1",
            "signature1",
            "affiliate1",
            "payload2",
            "signature2",
            "affiliate2"
        ]
    );
    all_names.sort();
    all_names.dedup();
    assert_eq!(all_names.len(), 9);

    for i in 0..3 {
        for prefix in ["payload", "signature", "affiliate"] {
            let declared = format!("${}{}: ", prefix, i);
            assert_eq!(body.query.matches(&declared).count(), 1);
        }
        let call = format!(
            "response{}: placeLimitOrder(payload: $payload{}, signature: $signature{}, affiliateDeveloperCode: $affiliate{})",
            i, i, i, i
        );
        assert_eq!(body.query.matches(&call).count(), 1);
    }
    assert_eq!(body.query.matches("placeLimitOrder(").count(), 3);
    assert_eq!(body.query.matches(": PlaceLimitOrderParams!").count(), 3);
    assert_eq!(body.query.matches(": Signature!").count(), 3);
    assert_eq!(body.query.matches(": AffiliateDeveloperCode").count(), 3);
    assert!(!body.query.contains("payload3"));
    assert!(!body.query.contains("response3"));
    assert!(body.query.find("response0").unwrap() < body.query.find("response1").unwrap());
    assert!(body.query.find("response1").unwrap() < body.query.find("response2").unwrap());
    assert_eq!(body.query, expected_query(3));
}

#[test]
fn entries_of_a_batch_belong_to_the_order_of_their_place() {
    let batch = batch_of_three();
    let state = state();
    let signatures = signatures_of_three();
    let affiliate = Some("dev".to_string());
    let body = batch.signed_graphql_request(TIME, affiliate.clone(), &state, &signatures).unwrap();
    let variables = batch.signed_variables(TIME, &affiliate, &state, &signatures).unwrap();
    assert_eq!(body, multi_query_body(&variables));
    let markets = ["ETH_BTC", "BTC_ETH", "ETH_USDC"];
    let digests = ["digest-a", "digest-b", "digest-c"];
    let chains = [2usize, 2, 1];
    for i in 0..3 {
        let payload = entry(&body, &format!("payload{}", i));
        assert_eq!(*payload, variables[i].payload.to_json());
        assert_eq!(member(payload, "market_name"), &text(markets[i]));
        assert_eq!(member(payload, "nonce_order"), &JsonValue::Integer(TIME + i as i64));
        match member(payload, "blockchain_signatures") {
            JsonValue::List(items) => assert_eq!(items.len(), chains[i]),
            _ => panic!("no list"),
        }
        let signature = entry(&body, &format!("signature{}", i));
        assert_eq!(member(signature, "signed_digest"), &text(digests[i]));
        assert_eq!(entry(&body, &format!("affiliate{}", i)), &text("dev"));

        assert_eq!(variables[i].signature, signatures[i].request);
        let constructor = &batch.constructors[i];
        let nonces: PayloadNonces = constructor.make_payload_nonces(&state, TIME + i as i64).unwrap();
        assert_eq!(
            variables[i].payload.blockchain_signatures,
            constructor.blockchain_signatures(&keys(), &nonces, &signatures[i].blockchain).unwrap()
        );
        assert_eq!(nonces.order_nonce, Nonce::Value((TIME + i as i64) as u32));
    }
}

#[test]
fn query_of_small_batches() {
    let none: Vec<place_limit_order::Variables> = vec![];
    let body = multi_query_body(&none);
    assert_eq!(body.variables.len(), 0);
    assert_eq!(body.query, expected_query(0));
    assert_eq!(
        body.query,
        "\n                mutation PlaceLimitOrder() {\n                    \n                }\n            "
    );
    let batch = batch_of_three();
    let mut requests = batch.graphql_request(TIME, None).unwrap();
    requests.truncate(1);
    let body = multi_query_body(&requests);
    assert_eq!(body.query, expected_query(1));
    assert_eq!(body.variables.len(), 3);
    assert_eq!(entry(&body, "affiliate0"), &JsonValue::Null);
    assert!(body.query.contains(
        "($payload0: PlaceLimitOrderParams!, $signature0: Signature!, $affiliate0: AffiliateDeveloperCode)"
    ));
}

#[test]
fn query_of_a_batch_of_twelve() {
    let requests: Vec<LimitOrderRequest> = (0..12)
        .map(|_| {
            limit_request(
                "ETH_BTC",
                BuyOrSell::Sell,
                "1",
                "1",
                OrderCancellationPolicy::GoodTilCancelled,
            )
        })
        .collect();
    let batch = LimitOrdersRequest { requests }.make_constructor(&state()).unwrap();
    let variables = batch.graphql_request(TIME, None).unwrap();
    let body = multi_query_body(&variables);
    assert_eq!(body.variables.len(), 36);
    assert_eq!(body.query, expected_query(12));
    assert_eq!(body.variables[33].name, "payload11");
    assert_eq!(body.variables[34].name, "signature11");
    assert_eq!(body.variables[35].name, "affiliate11");
    assert_eq!(body.variables[30].name, "payload10");
    let mut all_names: Vec<&str> = body.variables.iter().map(|f| f.name.as_str()).collect();
    all_names.sort();
    all_names.dedup();
    assert_eq!(all_names.len(), 36);
}

#[test]
fn a_batch_that_cannot_be_signed_is_not_assembled() {
    let batch = batch_of_three();
    let full = state();
    let affiliate = Some("dev".to_string());

    // signatures for two orders only
    let mut short = signatures_of_three();
    short.pop();
    assert_eq!(
        batch.signed_graphql_request(TIME, affiliate.clone(), &full, &short),
        Err(ProtocolError::SigningUnavailable)
    );

    // the second order lacks one blockchain signature
    let mut lacking = signatures_of_three();
    lacking[1].blockchain.pop();
    assert_eq!(
        batch.signed_graphql_request(TIME, affiliate.clone(), &full, &lacking),
        Err(ProtocolError::SigningUnavailable)
    );
    assert_eq!(
        batch.signed_variables(TIME, &affiliate, &full, &lacking),
        Err(ProtocolError::SigningUnavailable)
    );

    // no signer in the session
    let mut unsigned = state();
    unsigned.signer = None;
    assert_eq!(
        batch.signed_graphql_request(TIME, affiliate.clone(), &unsigned, &signatures_of_three()),
        Err(ProtocolError::SigningUnavailable)
    );

    // the pool of the third order is missing: the first two are not sent alone
    let mut missing = State::new(vec![]);
    missing.set_asset_nonces(Asset::ETH, vec![1]);
    missing.set_asset_nonces(Asset::BTC, vec![2]);
    missing.signer = Some(keys());
    assert_eq!(
        batch.signed_graphql_request(TIME, affiliate.clone(), &missing, &signatures_of_three()),
        Err(ProtocolError::MissingNoncePool)
    );

    // the first failure is the one that is reported
    assert_eq!(
        batch.signed_graphql_request(TIME, affiliate, &missing, &lacking),
        Err(ProtocolError::SigningUnavailable)
    );
}

//! The variables of the operation that places a limit order.

use vstd::prelude::*;
use vstd::string::*;
use crate::canonical::json::{model_fields, JsonField, JsonModel, JsonValue, MemberModel};
use crate::graphql::{
    optional_text_json,
    signatures_json,
    signatures_to_json,
    CurrencyAmountParams,
};
use crate::protocol::signature::{BlockchainSignature, RequestPayloadSignature};
use crate::types::order::{BuyOrSell, OrderCancellationPolicy};

verus! {

/// A price: an amount of `currency_a` for one unit of `currency_b`.
#[derive(Debug, PartialEq)]
pub struct CurrencyPriceParams {
    pub amount: String,
    pub currency_a: String,
    pub currency_b: String,
}

impl CurrencyPriceParams {
    /// The price as a document.
    pub open spec fn spec_json(&self) -> JsonModel {
        JsonModel::Object(
            seq![
                MemberModel { name: "amount"@, value: JsonModel::Text(self.amount@) },
                MemberModel { name: "currency_a"@, value: JsonModel::Text(self.currency_a@) },
                MemberModel { name: "currency_b"@, value: JsonModel::Text(self.currency_b@) },
            ],
        )
    }

    /// The price as a document.
    pub fn to_json(&self) -> (r: JsonValue)
        ensures
            r@ == self.spec_json(),
    {
        let mut fields: Vec<JsonField> = Vec::new();
        fields.push(JsonField::new("amount", JsonValue::text(self.amount.as_str())));
        fields.push(JsonField::new("currency_a", JsonValue::text(self.currency_a.as_str())));
        fields.push(JsonField::new("currency_b", JsonValue::text(self.currency_b.as_str())));
        proof {
            assert(model_fields(fields@) =~= self.spec_json()->Object_0);
        }
        JsonValue::object(fields)
    }
}

/// The parameters of a limit order.
#[derive(Debug, PartialEq)]
pub struct PlaceLimitOrderParams {
    pub client_order_id: Option<String>,
    pub allow_taker: bool,
    pub buy_or_sell: BuyOrSell,
    pub cancel_at: Option<String>,
    pub cancellation_policy: OrderCancellationPolicy,
    pub market_name: String,
    pub amount: CurrencyAmountParams,
    pub nonce_from: i64,
    pub nonce_to: i64,
    pub nonce_order: i64,
    pub timestamp: i64,
    pub limit_price: CurrencyPriceParams,
    pub blockchain_signatures: Vec<BlockchainSignature>,
}

impl PlaceLimitOrderParams {
    /// The parameters as a document.
    pub open spec fn spec_json(&self) -> JsonModel {
        JsonModel::Object(
            seq![
                MemberModel { name: "allow_taker"@, value: JsonModel::Bool(self.allow_taker) },
                MemberModel { name: "amount"@, value: self.amount.spec_json() },
                MemberModel {
                    name: "blockchain_signatures"@,
                    value: signatures_json(self.blockchain_signatures@),
                },
                MemberModel {
                    name: "buy_or_sell"@,
                    value: JsonModel::Text(self.buy_or_sell.spec_name()),
                },
                MemberModel { name: "cancel_at"@, value: optional_text_json(self.cancel_at) },
                MemberModel {
                    name: "cancellation_policy"@,
                    value: JsonModel::Text(self.cancellation_policy.spec_name()),
                },
                MemberModel {
                    name: "client_order_id"@,
                    value: optional_text_json(self.client_order_id),
                },
                MemberModel { name: "limit_price"@, value: self.limit_price.spec_json() },
                MemberModel { name: "market_name"@, value: JsonModel::Text(self.market_name@) },
                MemberModel { name: "nonce_from"@, value: JsonModel::Integer(self.nonce_from as int) },
                MemberModel { name: "nonce_order"@, value: JsonModel::Integer(self.nonce_order as int) },
                MemberModel { name: "nonce_to"@, value: JsonModel::Integer(self.nonce_to as int) },
                MemberModel { name: "timestamp"@, value: JsonModel::Integer(self.timestamp as int) },
            ],
        )
    }

    /// The parameters as a document.
    pub fn to_json(&self) -> (r: JsonValue)
        ensures
            r@ == self.spec_json(),
    {
        let mut fields: Vec<JsonField> = Vec::new();
        fields.push(JsonField::new("allow_taker", JsonValue::Bool(self.allow_taker)));
        fields.push(JsonField::new("amount", self.amount.to_json()));
        fields.push(
            JsonField::new("blockchain_signatures", signatures_to_json(&self.blockchain_signatures)),
        );
        fields.push(JsonField::new("buy_or_sell", JsonValue::text(self.buy_or_sell.name())));
        fields.push(JsonField::new("cancel_at", JsonValue::optional_text(&self.cancel_at)));
        fields.push(
            JsonField::new("cancellation_policy", JsonValue::text(self.cancellation_policy.name())),
        );
        fields.push(
            JsonField::new("client_order_id", JsonValue::optional_text(&self.client_order_id)),
        );
        fields.push(JsonField::new("limit_price", self.limit_price.to_json()));
        fields.push(JsonField::new("market_name", JsonValue::text(self.market_name.as_str())));
        fields.push(JsonField::new("nonce_from", JsonValue::Integer(self.nonce_from)));
        fields.push(JsonField::new("nonce_order", JsonValue::Integer(self.nonce_order)));
        fields.push(JsonField::new("nonce_to", JsonValue::Integer(self.nonce_to)));
        fields.push(JsonField::new("timestamp", JsonValue::Integer(self.timestamp)));
        proof {
            assert(model_fields(fields@) =~= self.spec_json()->Object_0);
        }
        JsonValue::object(fields)
    }
}

/// The variables of the operation: the parameters, the code of the affiliate
/// developer where there is one, and the signature over the request.
#[derive(Debug, PartialEq)]
pub struct Variables {
    pub payload: PlaceLimitOrderParams,
    pub affiliate: Option<String>,
    pub signature: RequestPayloadSignature,
}

impl Variables {
    /// The variables as a document.
    pub open spec fn spec_json(&self) -> JsonModel {
        JsonModel::Object(
            seq![
                MemberModel { name: "affiliate"@, value: optional_text_json(self.affiliate) },
                MemberModel { name: "payload"@, value: self.payload.spec_json() },
                MemberModel { name: "signature"@, value: self.signature.spec_json() },
            ],
        )
    }

    /// The variables as a document.
    pub fn to_json(&self) -> (r: JsonValue)
        ensures
            r@ == self.spec_json(),
    {
        let mut fields: Vec<JsonField> = Vec::new();
        fields.push(JsonField::new("affiliate", JsonValue::optional_text(&self.affiliate)));
        fields.push(JsonField::new("payload", self.payload.to_json()));
        fields.push(JsonField::new("signature", self.signature.to_json()));
        proof {
            assert(model_fields(fields@) =~= self.spec_json()->Object_0);
        }
        JsonValue::object(fields)
    }
}

} // verus!

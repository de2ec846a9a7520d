//! The variables of the operation that places a market order.

use vstd::prelude::*;
use vstd::string::*;
use crate::canonical::json::{model_fields, JsonField, JsonModel, JsonValue, MemberModel};
use crate::graphql::{
    optional_text_json,
    signatures_json,
    signatures_to_json,
    CurrencyAmountParams,
};
use crate::protocol::signature::{BlockchainSignature, RequestPayloadSignature};
use crate::types::order::BuyOrSell;

verus! {

/// A number that may be absent, as a document.
pub open spec fn optional_integer_json(number: Option<i64>) -> JsonModel {
    match number {
        Some(n) => JsonModel::Integer(n as int),
        None => JsonModel::Null,
    }
}

/// A number that may be absent, as a document.
pub fn optional_integer(number: Option<i64>) -> (r: JsonValue)
    ensures
        r@ == optional_integer_json(number),
{
    match number {
        Some(n) => JsonValue::Integer(n),
        None => JsonValue::Null,
    }
}

/// The parameters of a market order.
#[derive(Debug, PartialEq)]
pub struct PlaceMarketOrderParams {
    pub buy_or_sell: BuyOrSell,
    pub client_order_id: Option<String>,
    pub market_name: String,
    pub amount: CurrencyAmountParams,
    pub nonce_from: Option<i64>,
    pub nonce_to: Option<i64>,
    pub nonce_order: i64,
    pub timestamp: i64,
    pub blockchain_signatures: Vec<BlockchainSignature>,
}

impl PlaceMarketOrderParams {
    /// The parameters as a document.
    pub open spec fn spec_json(&self) -> JsonModel {
        JsonModel::Object(
            seq![
                MemberModel { name: "amount"@, value: self.amount.spec_json() },
                MemberModel {
                    name: "blockchain_signatures"@,
                    value: signatures_json(self.blockchain_signatures@),
                },
                MemberModel {
                    name: "buy_or_sell"@,
                    value: JsonModel::Text(self.buy_or_sell.spec_name()),
                },
                MemberModel {
                    name: "client_order_id"@,
                    value: optional_text_json(self.client_order_id),
                },
                MemberModel { name: "market_name"@, value: JsonModel::Text(self.market_name@) },
                MemberModel { name: "nonce_from"@, value: optional_integer_json(self.nonce_from) },
                MemberModel { name: "nonce_order"@, value: JsonModel::Integer(self.nonce_order as int) },
                MemberModel { name: "nonce_to"@, value: optional_integer_json(self.nonce_to) },
                MemberModel { name: "timestamp"@, value: JsonModel::Integer(self.timestamp as int) },
            ],
        )
    }

    /// The parameters as a document.
    pub fn to_json(&self) -> (r: JsonValue)
        ensures
            r@ == self.spec_json(),
    {
        let mut fields: Vec<JsonField> = Vec::new();
        fields.push(JsonField::new("amount", self.amount.to_json()));
        fields.push(
            JsonField::new("blockchain_signatures", signatures_to_json(&self.blockchain_signatures)),
        );
        fields.push(JsonField::new("buy_or_sell", JsonValue::text(self.buy_or_sell.name())));
        fields.push(
            JsonField::new("client_order_id", JsonValue::optional_text(&self.client_order_id)),
        );
        fields.push(JsonField::new("market_name", JsonValue::text(self.market_name.as_str())));
        fields.push(JsonField::new("nonce_from", optional_integer(self.nonce_from)));
        fields.push(JsonField::new("nonce_order", JsonValue::Integer(self.nonce_order)));
        fields.push(JsonField::new("nonce_to", optional_integer(self.nonce_to)));
        fields.push(JsonField::new("timestamp", JsonValue::Integer(self.timestamp)));
        proof {
            assert(model_fields(fields@) =~= self.spec_json()->Object_0);
        }
        JsonValue::object(fields)
    }
}

/// The variables of the operation: the parameters, the code of the affiliate
/// developer where there is one, and the signature over the request.
#[derive(Debug, PartialEq)]
pub struct Variables {
    pub payload: PlaceMarketOrderParams,
    pub affiliate: Option<String>,
    pub signature: RequestPayloadSignature,
}

impl Variables {
    /// The variables as a document.
    pub open spec fn spec_json(&self) -> JsonModel {
        JsonModel::Object(
            seq![
                MemberModel { name: "affiliate"@, value: optional_text_json(self.affiliate) },
                MemberModel { name: "payload"@, value: self.payload.spec_json() },
                MemberModel { name: "signature"@, value: self.signature.spec_json() },
            ],
        )
    }

    /// The variables as a document.
    pub fn to_json(&self) -> (r: JsonValue)
        ensures
            r@ == self.spec_json(),
    {
        let mut fields: Vec<JsonField> = Vec::new();
        fields.push(JsonField::new("affiliate", JsonValue::optional_text(&self.affiliate)));
        fields.push(JsonField::new("payload", self.payload.to_json()));
        fields.push(JsonField::new("signature", self.signature.to_json()));
        proof {
            assert(model_fields(fields@) =~= self.spec_json()->Object_0);
        }
        JsonValue::object(fields)
    }
}

} // verus!

//! The variables of the operations, in the shape in which they are sent.

use vstd::prelude::*;
use vstd::string::*;
use crate::canonical::json::{model_fields, JsonField, JsonModel, JsonValue, MemberModel};
use crate::protocol::signature::{BlockchainSignature, RequestPayloadSignature};
use crate::types::amount::AssetAmount;

pub mod place_limit_order;
pub mod place_market_order;

verus! {

/// An amount of a currency, as text.
#[derive(Debug, PartialEq)]
pub struct CurrencyAmountParams {
    pub amount: String,
    pub currency: String,
}

impl CurrencyAmountParams {
    /// The amount as a document.
    pub open spec fn spec_json(&self) -> JsonModel {
        JsonModel::Object(
            seq![
                MemberModel { name: "amount"@, value: JsonModel::Text(self.amount@) },
                MemberModel { name: "currency"@, value: JsonModel::Text(self.currency@) },
            ],
        )
    }

    /// The amount as a document.
    pub fn to_json(&self) -> (r: JsonValue)
        ensures
            r@ == self.spec_json(),
    {
        let mut fields: Vec<JsonField> = Vec::new();
        fields.push(JsonField::new("amount", JsonValue::text(self.amount.as_str())));
        fields.push(JsonField::new("currency", JsonValue::text(self.currency.as_str())));
        proof {
            assert(model_fields(fields@) =~= self.spec_json()->Object_0);
        }
        JsonValue::object(fields)
    }
}

impl AssetAmount {
    /// Whether `params` names this amount: the quantity as a decimal numeral
    /// and the asset by its name.
    pub open spec fn is_named_by(&self, params: CurrencyAmountParams) -> bool {
        &&& params.amount@ == self.amount.spec_text()
        &&& params.currency@ == self.asset.asset.spec_name()
    }

    /// The amount as payloads carry it.
    pub fn to_currency_amount(&self) -> (r: CurrencyAmountParams)
        ensures
            self.is_named_by(r),
    {
        CurrencyAmountParams {
            amount: self.amount.to_text(),
            currency: String::from_str(self.asset.asset.name()),
        }
    }
}

impl RequestPayloadSignature {
    /// The signature as a document.
    pub open spec fn spec_json(&self) -> JsonModel {
        JsonModel::Object(
            seq![
                MemberModel { name: "public_key"@, value: JsonModel::Text(self.public_key@) },
                MemberModel { name: "signed_digest"@, value: JsonModel::Text(self.signed_digest@) },
            ],
        )
    }

    /// The signature as a document.
    pub fn to_json(&self) -> (r: JsonValue)
        ensures
            r@ == self.spec_json(),
    {
        let mut fields: Vec<JsonField> = Vec::new();
        fields.push(JsonField::new("public_key", JsonValue::text(self.public_key.as_str())));
        fields.push(JsonField::new("signed_digest", JsonValue::text(self.signed_digest.as_str())));
        proof {
            assert(model_fields(fields@) =~= self.spec_json()->Object_0);
        }
        JsonValue::object(fields)
    }
}

impl BlockchainSignature {
    /// The entry as a document.
    pub open spec fn spec_json(&self) -> JsonModel {
        JsonModel::Object(
            seq![
                MemberModel { name: "blockchain"@, value: JsonModel::Text(self.blockchain.spec_name()) },
                MemberModel { name: "nonce_from"@, value: JsonModel::Integer(self.nonce_from as int) },
                MemberModel { name: "nonce_to"@, value: JsonModel::Integer(self.nonce_to as int) },
                MemberModel { name: "public_key"@, value: JsonModel::Text(self.public_key@) },
                MemberModel { name: "r"@, value: JsonModel::Text(self.r@) },
                MemberModel { name: "signature"@, value: JsonModel::Text(self.signature@) },
            ],
        )
    }

    /// The entry as a document.
    pub fn to_json(&self) -> (r: JsonValue)
        ensures
            r@ == self.spec_json(),
    {
        let mut fields: Vec<JsonField> = Vec::new();
        fields.push(JsonField::new("blockchain", JsonValue::text(self.blockchain.name())));
        fields.push(JsonField::new("nonce_from", JsonValue::Integer(self.nonce_from)));
        fields.push(JsonField::new("nonce_to", JsonValue::Integer(self.nonce_to)));
        fields.push(JsonField::new("public_key", JsonValue::text(self.public_key.as_str())));
        fields.push(JsonField::new("r", JsonValue::text(self.r.as_str())));
        fields.push(JsonField::new("signature", JsonValue::text(self.signature.as_str())));
        proof {
            assert(model_fields(fields@) =~= self.spec_json()->Object_0);
        }
        JsonValue::object(fields)
    }
}

/// The entries of a list of signatures as documents.
pub open spec fn signatures_json(signatures: Seq<BlockchainSignature>) -> JsonModel {
    JsonModel::List(Seq::new(signatures.len(), |i: int| signatures[i].spec_json()))
}

/// The entries of a list of signatures as one document.
pub fn signatures_to_json(signatures: &Vec<BlockchainSignature>) -> (r: JsonValue)
    ensures
        r@ == signatures_json(signatures@),
{
    let mut items: Vec<JsonValue> = Vec::new();
    let mut i: usize = 0;
    while i < signatures.len()
        invariant
            i <= signatures.len(),
            items@.len() == i,
            forall|k: int| 0 <= k < i ==> (#[trigger] items@[k])@ == signatures@[k].spec_json(),
        decreases signatures.len() - i,
    {
        items.push(signatures[i].to_json());
        i = i + 1;
    }
    proof {
        assert(crate::canonical::json::model_items(items@) =~= signatures_json(
            signatures@,
        )->List_0);
    }
    JsonValue::list(items)
}

/// A text that may be absent, as a sequence of characters.
pub open spec fn optional_text(text: Option<String>) -> Option<Seq<char>> {
    match text {
        Some(s) => Some(s@),
        None => None,
    }
}

/// A text that may be absent, as a document.
pub open spec fn optional_text_json(text: Option<String>) -> JsonModel {
    match text {
        Some(s) => JsonModel::Text(s@),
        None => JsonModel::Null,
    }
}

} // verus!

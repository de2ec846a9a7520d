//! The canonical strings of the two operations: what the request signature
//! is made over.
//!
//! The list of blockchain signatures and the request signature itself are
//! left out, at every depth. They are filled in after the string is signed,
//! and the string of a request is the same before and after.

use vstd::prelude::*;
use vstd::string::*;
use crate::canonical::json::JsonValue;
use crate::canonical::laws::{
    lemma_same_but_excluded,
    lemma_same_document_reflexive,
    lemma_same_document_same_text,
    lemma_same_members_same_document,
    same_document,
};
use crate::canonical::writer::{
    canonical_string,
    excluded_names,
    general_canonical_string,
    has_distinct_kept_names,
    well_formed,
};
use crate::errors::ProtocolError;
use crate::graphql::{optional_text, place_limit_order, place_market_order, CurrencyAmountParams};
use crate::protocol::place_order::types::LimitOrderConstructor;
use crate::protocol::place_orders::request::{has_limit_order_fields, has_market_order_fields};
use crate::protocol::place_orders::types::MarketOrderConstructor;

verus! {

/// The names of the members over which no request signature is made.
pub open spec fn signing_exclusions() -> Set<Seq<char>> {
    set!["blockchain_signatures"@, "signature"@]
}

/// The names of the members over which no request signature is made.
fn not_included() -> (r: Vec<String>)
    ensures
        excluded_names(r@) == signing_exclusions(),
{
    let mut names: Vec<String> = Vec::new();
    names.push(String::from_str("blockchain_signatures"));
    names.push(String::from_str("signature"));
    proof {
        assert(names@[0]@ == "blockchain_signatures"@);
        assert(names@[1]@ == "signature"@);
        assert(excluded_names(names@) =~= signing_exclusions());
    }
    names
}

/// What the member names of the payloads consist of.
proof fn reveal_member_names()
    ensures
        "affiliate"@.len() == 9,
        "payload"@.len() == 7,
        "signature"@.len() == 9,
        "signature"@[0] == 's',
        "affiliate"@[0] == 'a',
        "amount"@.len() == 6,
        "currency"@.len() == 8,
        "currency_a"@.len() == 10,
        "currency_b"@.len() == 10,
        "currency_a"@[9] == 'a',
        "currency_b"@[9] == 'b',
        "allow_taker"@.len() == 11,
        "blockchain_signatures"@.len() == 21,
        "buy_or_sell"@.len() == 11,
        "allow_taker"@[0] == 'a',
        "buy_or_sell"@[0] == 'b',
        "market_name"@[0] == 'm',
        "limit_price"@[0] == 'l',
        "nonce_order"@[0] == 'n',
        "cancel_at"@.len() == 9,
        "cancel_at"@[0] == 'c',
        "cancellation_policy"@.len() == 19,
        "client_order_id"@.len() == 15,
        "limit_price"@.len() == 11,
        "market_name"@.len() == 11,
        "nonce_from"@.len() == 10,
        "nonce_order"@.len() == 11,
        "nonce_to"@.len() == 8,
        "nonce_from"@[6] == 'f',
        "timestamp"@.len() == 9,
        "timestamp"@[0] == 't',
        "currency"@[0] == 'c',
        "nonce_to"@[0] == 'n',
{
    reveal_strlit("affiliate");
    reveal_strlit("payload");
    reveal_strlit("signature");
    reveal_strlit("amount");
    reveal_strlit("currency");
    reveal_strlit("currency_a");
    reveal_strlit("currency_b");
    reveal_strlit("allow_taker");
    reveal_strlit("blockchain_signatures");
    reveal_strlit("buy_or_sell");
    reveal_strlit("cancel_at");
    reveal_strlit("cancellation_policy");
    reveal_strlit("client_order_id");
    reveal_strlit("limit_price");
    reveal_strlit("market_name");
    reveal_strlit("nonce_from");
    reveal_strlit("nonce_order");
    reveal_strlit("nonce_to");
    reveal_strlit("timestamp");
}

/// An amount has a canonical text.
proof fn lemma_amount_well_formed(amount: CurrencyAmountParams)
    ensures
        well_formed(amount.spec_json(), signing_exclusions()),
{
    reveal_member_names();
    let fields = amount.spec_json()->Object_0;
    assert(fields.len() == 2);
    assert(has_distinct_kept_names(fields, signing_exclusions()));
    assert forall|i: int|
        0 <= i < fields.len() && !signing_exclusions().contains(
            (#[trigger] fields[i]).name,
        ) implies well_formed(fields[i].value, signing_exclusions()) by {
        assert(fields[i].value is Text);
    }
}

/// A price has a canonical text.
proof fn lemma_price_well_formed(price: place_limit_order::CurrencyPriceParams)
    ensures
        well_formed(price.spec_json(), signing_exclusions()),
{
    reveal_member_names();
    let fields = price.spec_json()->Object_0;
    assert(fields.len() == 3);
    assert(has_distinct_kept_names(fields, signing_exclusions()));
    assert forall|i: int|
        0 <= i < fields.len() && !signing_exclusions().contains(
            (#[trigger] fields[i]).name,
        ) implies well_formed(fields[i].value, signing_exclusions()) by {
        assert(fields[i].value is Text);
    }
}

/// The parameters of a limit order have a canonical text.
proof fn lemma_limit_params_well_formed(params: place_limit_order::PlaceLimitOrderParams)
    ensures
        well_formed(params.spec_json(), signing_exclusions()),
{
    reveal_member_names();
    lemma_amount_well_formed(params.amount);
    lemma_price_well_formed(params.limit_price);
    let fields = params.spec_json()->Object_0;
    assert(fields.len() == 13);
    assert(has_distinct_kept_names(fields, signing_exclusions()));
    assert forall|i: int|
        0 <= i < fields.len() && !signing_exclusions().contains(
            (#[trigger] fields[i]).name,
        ) implies well_formed(fields[i].value, signing_exclusions()) by {
        if i == 1 {
            assert(fields[i].value == params.amount.spec_json());
        } else if i == 7 {
            assert(fields[i].value == params.limit_price.spec_json());
        } else if i == 2 {
            assert(signing_exclusions().contains("blockchain_signatures"@));
        }
    }
}

/// The parameters of a market order have a canonical text.
proof fn lemma_market_params_well_formed(params: place_market_order::PlaceMarketOrderParams)
    ensures
        well_formed(params.spec_json(), signing_exclusions()),
{
    reveal_member_names();
    lemma_amount_well_formed(params.amount);
    let fields = params.spec_json()->Object_0;
    assert(fields.len() == 9);
    assert(has_distinct_kept_names(fields, signing_exclusions()));
    assert forall|i: int|
        0 <= i < fields.len() && !signing_exclusions().contains(
            (#[trigger] fields[i]).name,
        ) implies well_formed(fields[i].value, signing_exclusions()) by {
        if i == 0 {
            assert(fields[i].value == params.amount.spec_json());
        } else if i == 1 {
            assert(signing_exclusions().contains("blockchain_signatures"@));
        }
    }
}

/// The variables of a limit order always have a canonical text.
pub proof fn lemma_limit_variables_well_formed(variables: place_limit_order::Variables)
    ensures
        well_formed(variables.spec_json(), signing_exclusions()),
{
    reveal_member_names();
    lemma_limit_params_well_formed(variables.payload);
    let fields = variables.spec_json()->Object_0;
    assert(fields.len() == 3);
    assert(has_distinct_kept_names(fields, signing_exclusions()));
    assert forall|i: int|
        0 <= i < fields.len() && !signing_exclusions().contains(
            (#[trigger] fields[i]).name,
        ) implies well_formed(fields[i].value, signing_exclusions()) by {
        if i == 1 {
            assert(fields[i].value == variables.payload.spec_json());
        } else if i == 2 {
            assert(signing_exclusions().contains("signature"@));
        }
    }
}

/// The variables of a market order always have a canonical text.
pub proof fn lemma_market_variables_well_formed(variables: place_market_order::Variables)
    ensures
        well_formed(variables.spec_json(), signing_exclusions()),
{
    reveal_member_names();
    lemma_market_params_well_formed(variables.payload);
    let fields = variables.spec_json()->Object_0;
    assert(fields.len() == 3);
    assert(has_distinct_kept_names(fields, signing_exclusions()));
    assert forall|i: int|
        0 <= i < fields.len() && !signing_exclusions().contains(
            (#[trigger] fields[i]).name,
        ) implies well_formed(fields[i].value, signing_exclusions()) by {
        if i == 1 {
            assert(fields[i].value == variables.payload.spec_json());
        } else if i == 2 {
            assert(signing_exclusions().contains("signature"@));
        }
    }
}

/// The canonical string of the variables of a limit order.
pub open spec fn spec_limit_order_canonical_string(variables: place_limit_order::Variables) -> Seq<
    char,
> {
    canonical_string("place_limit_order"@, variables.spec_json(), signing_exclusions())
}

/// The canonical string of the variables of a market order.
pub open spec fn spec_market_order_canonical_string(variables: place_market_order::Variables) -> Seq<
    char,
> {
    canonical_string("place_market_order"@, variables.spec_json(), signing_exclusions())
}

/// The string over which a request for a limit order is signed: every field
/// of the variables but the blockchain signatures and the signature itself.
pub fn limit_order_canonical_string(variables: &place_limit_order::Variables) -> (r: Result<
    String,
    ProtocolError,
>)
    ensures
        r is Ok,
        r->Ok_0@ == spec_limit_order_canonical_string(*variables),
{
    let json: JsonValue = variables.to_json();
    let names: Vec<String> = not_included();
    proof {
        lemma_limit_variables_well_formed(*variables);
    }
    general_canonical_string("place_limit_order", &json, &names)
}

/// The string over which a request for a market order is signed: every
/// field of the variables but the blockchain signatures and the signature
/// itself.
pub fn market_order_canonical_string(variables: &place_market_order::Variables) -> (r: Result<
    String,
    ProtocolError,
>)
    ensures
        r is Ok,
        r->Ok_0@ == spec_market_order_canonical_string(*variables),
{
    let json: JsonValue = variables.to_json();
    let names: Vec<String> = not_included();
    proof {
        lemma_market_variables_well_formed(*variables);
    }
    general_canonical_string("place_market_order", &json, &names)
}

/// The string over which a market order is signed does not depend on the
/// signatures. Two sets of variables that carry the fields of the same
/// order and the same affiliate code have the same canonical string,
/// whatever blockchain signatures and request signature each holds: the
/// string of the signed request is the string that was signed.
pub proof fn lemma_market_signing_input_is_stable(
    a: place_market_order::Variables,
    b: place_market_order::Variables,
    order: MarketOrderConstructor,
    current_time: i64,
)
    requires
        has_market_order_fields(a.payload, order, current_time),
        has_market_order_fields(b.payload, order, current_time),
        optional_text(a.affiliate) == optional_text(b.affiliate),
    ensures
        spec_market_order_canonical_string(a) == spec_market_order_canonical_string(b),
{
    let ex = signing_exclusions();
    reveal_member_names();
    lemma_amount_well_formed(a.payload.amount);
    lemma_same_document_reflexive(a.payload.amount.spec_json(), ex);
    assert(a.payload.amount.spec_json() == b.payload.amount.spec_json());
    let x = a.payload.spec_json()->Object_0;
    let y = b.payload.spec_json()->Object_0;
    lemma_market_params_well_formed(a.payload);
    assert(x.len() == 9 && y.len() == 9);
    assert forall|i: int| 0 <= i < x.len() implies (#[trigger] x[i]).name == y[i].name by {}
    assert forall|i: int|
        0 <= i < x.len() && !ex.contains((#[trigger] x[i]).name) implies same_document(
        x[i].value,
        y[i].value,
        ex,
    ) by {
        if i == 1 {
            assert(ex.contains("blockchain_signatures"@));
        }
    }
    assert(has_distinct_kept_names(x, ex));
    lemma_same_members_same_document(x, y, ex);
    let u = a.spec_json()->Object_0;
    let v = b.spec_json()->Object_0;
    lemma_market_variables_well_formed(a);
    assert(u.len() == 3 && v.len() == 3);
    assert forall|i: int| 0 <= i < u.len() implies (#[trigger] u[i]).name == v[i].name by {}
    assert forall|i: int|
        0 <= i < u.len() && !ex.contains((#[trigger] u[i]).name) implies same_document(
        u[i].value,
        v[i].value,
        ex,
    ) by {
        if i == 2 {
            assert(ex.contains("signature"@));
        }
    }
    assert(has_distinct_kept_names(u, ex));
    lemma_same_members_same_document(u, v, ex);
    lemma_same_document_same_text(a.spec_json(), b.spec_json(), ex);
}

/// The parameters of two limit orders say the same where both carry the
/// fields of the same order at the same place, whatever signatures they
/// hold.
#[verifier::rlimit(60)]
proof fn lemma_limit_params_say_the_same(
    a: place_limit_order::PlaceLimitOrderParams,
    b: place_limit_order::PlaceLimitOrderParams,
    order: LimitOrderConstructor,
    current_time: i64,
    index: int,
)
    requires
        has_limit_order_fields(a, order, current_time, index),
        has_limit_order_fields(b, order, current_time, index),
    ensures
        same_document(a.spec_json(), b.spec_json(), signing_exclusions()),
{
    let ex = signing_exclusions();
    let x = a.spec_json()->Object_0;
    let y = b.spec_json()->Object_0;
    lemma_limit_params_well_formed(a);
    assert(x.len() == 13 && y.len() == 13);
    assert(ex.contains("blockchain_signatures"@));
    assert forall|i: int| 0 <= i < x.len() implies (#[trigger] x[i]).name == y[i].name && (
    !ex.contains(x[i].name) ==> x[i].value == y[i].value) by {
        if i == 0 {
        } else if i == 1 {
            assert(a.amount.spec_json() == b.amount.spec_json());
        } else if i == 2 {
        } else if i == 3 {
        } else if i == 4 {
        } else if i == 5 {
        } else if i == 6 {
        } else if i == 7 {
            assert(a.limit_price.spec_json() == b.limit_price.spec_json());
        } else if i == 8 {
        } else if i == 9 {
        } else if i == 10 {
        } else if i == 11 {
        } else {
        }
    }
    lemma_same_but_excluded(x, y, ex);
}

/// The string over which a limit order is signed does not depend on the
/// signatures. Two sets of variables that carry the fields of the same
/// order at the same place of a batch and the same affiliate code have the
/// same canonical string, whatever blockchain signatures and request
/// signature each holds.
pub proof fn lemma_limit_signing_input_is_stable(
    a: place_limit_order::Variables,
    b: place_limit_order::Variables,
    order: LimitOrderConstructor,
    current_time: i64,
    index: int,
)
    requires
        has_limit_order_fields(a.payload, order, current_time, index),
        has_limit_order_fields(b.payload, order, current_time, index),
        optional_text(a.affiliate) == optional_text(b.affiliate),
    ensures
        spec_limit_order_canonical_string(a) == spec_limit_order_canonical_string(b),
{
    let ex = signing_exclusions();
    lemma_limit_params_say_the_same(a.payload, b.payload, order, current_time, index);
    let u = a.spec_json()->Object_0;
    let v = b.spec_json()->Object_0;
    lemma_limit_variables_well_formed(a);
    assert(has_distinct_kept_names(u, ex));
    assert(u.len() == 3 && v.len() == 3);
    assert(ex.contains("signature"@));
    assert(u[0].value == v[0].value);
    assert(u[2].name == "signature"@);
    assert forall|i: int| 0 <= i < u.len() implies (#[trigger] u[i]).name == v[i].name by {}
    assert forall|i: int|
        0 <= i < u.len() && !ex.contains((#[trigger] u[i]).name) implies same_document(
        u[i].value,
        v[i].value,
        ex,
    ) by {
        assert(i != 2);
    }
    lemma_same_members_same_document(u, v, ex);
    lemma_same_document_same_text(a.spec_json(), b.spec_json(), ex);
}

} // verus!

//! The batch of limit orders as it is sent: one query that declares three
//! variables for every order and calls the operation once for every order,
//! and the values of those variables.
//!
//! The order at place `i` has the variables `payload{i}`, `signature{i}` and
//! `affiliate{i}` and is answered under the alias `response{i}`. Places are
//! counted from zero, without gaps, in the order of the batch.

use vstd::prelude::*;
use vstd::string::*;
use crate::canonical::json::{JsonField, JsonValue};
use crate::graphql::{optional_text_json, place_limit_order};
use crate::protocol::place_orders::types::MultiQueryBody;
use crate::text::{decimal_text, lemma_decimal_text, lemma_decimal_text_injective, u64_to_text};

verus! {

/// The name of the variable of the order at place `index` that begins with
/// `prefix`.
pub open spec fn variable_name(prefix: Seq<char>, index: nat) -> Seq<char> {
    prefix + decimal_text(index)
}

/// The declaration of the three variables of the order at place `index`.
pub open spec fn param_text(index: nat) -> Seq<char> {
    "$"@ + variable_name("payload"@, index) + ": PlaceLimitOrderParams!, $"@ + variable_name(
        "signature"@,
        index,
    ) + ": Signature!, $"@ + variable_name("affiliate"@, index) + ": AffiliateDeveloperCode"@
}

/// The declarations of the variables of the first `n` orders.
pub open spec fn params_text(n: nat) -> Seq<char>
    decreases n,
{
    if n == 0 {
        Seq::empty()
    } else if n == 1 {
        param_text(0)
    } else {
        params_text((n - 1) as nat) + ", "@ + param_text((n - 1) as nat)
    }
}

/// What stands before the calls that precede a call.
pub open spec fn call_head() -> Seq<char> {
    "\n                "@
}

/// What stands between the calls that precede a call and its place.
pub open spec fn call_alias() -> Seq<char> {
    "\n                response"@
}

/// What is asked of every order that was placed.
pub open spec fn call_selection() -> Seq<char> {
    ") {\n                    id\n                    status\n                    ordersTillSignState,\n                    buyOrSell,\n                    market {\n                        name\n                    },\n                    placedAt,\n                    type\n                }\n                "@
}

/// The calls of the operation for the first `n` orders: the calls for the
/// orders before the last, and after them the call for the last under its
/// alias.
pub open spec fn calls_text(n: nat) -> Seq<char>
    decreases n,
{
    if n == 0 {
        Seq::empty()
    } else {
        let index = (n - 1) as nat;
        call_head() + calls_text(index) + call_alias() + decimal_text(index)
            + ": placeLimitOrder(payload: $"@ + variable_name("payload"@, index)
            + ", signature: $"@ + variable_name("signature"@, index)
            + ", affiliateDeveloperCode: $"@ + variable_name("affiliate"@, index)
            + call_selection()
    }
}

/// The text of the query that places `n` limit orders.
pub open spec fn mutation_text(n: nat) -> Seq<char> {
    "\n                mutation PlaceLimitOrder("@ + params_text(n)
        + ") {\n                    "@ + calls_text(n)
        + "\n                }\n            "@
}

/// The three entries of the order at place `i` hold what `variables` holds:
/// the parameters under `payload{i}`, the signature over the request under
/// `signature{i}`, and the code of the affiliate developer under
/// `affiliate{i}`.
pub open spec fn are_entries_of(
    entries: Seq<JsonField>,
    i: int,
    variables: place_limit_order::Variables,
) -> bool {
    &&& entries[3 * i].name@ == variable_name("payload"@, i as nat)
    &&& entries[3 * i].value@ == variables.payload.spec_json()
    &&& entries[3 * i + 1].name@ == variable_name("signature"@, i as nat)
    &&& entries[3 * i + 1].value@ == variables.signature.spec_json()
    &&& entries[3 * i + 2].name@ == variable_name("affiliate"@, i as nat)
    &&& entries[3 * i + 2].value@ == optional_text_json(variables.affiliate)
}

/// `body` is the batch of the orders `variables`: its query declares and
/// calls one operation for each of them, and its entries hold their
/// variables, three for each order, place by place.
pub open spec fn is_batch(body: MultiQueryBody, variables: Seq<place_limit_order::Variables>) -> bool {
    &&& body.operation_name@ == "PlaceLimitOrder"@
    &&& body.query@ == mutation_text(variables.len())
    &&& body.variables@.len() == 3 * variables.len()
    &&& forall|i: int|
        0 <= i < variables.len() ==> are_entries_of(body.variables@, i, #[trigger] variables[i])
}

/// No two variables of a batch have the same name: names with different
/// prefixes differ, and names with the same prefix differ where the places
/// differ. So the entries of a batch of `n` orders are `3 * n` variables.
pub proof fn lemma_variable_names_differ(i: nat, j: nat)
    ensures
        variable_name("payload"@, i) != variable_name("signature"@, j),
        variable_name("payload"@, i) != variable_name("affiliate"@, j),
        variable_name("signature"@, i) != variable_name("affiliate"@, j),
        i != j ==> variable_name("payload"@, i) != variable_name("payload"@, j),
        i != j ==> variable_name("signature"@, i) != variable_name("signature"@, j),
        i != j ==> variable_name("affiliate"@, i) != variable_name("affiliate"@, j),
{
    reveal_strlit("payload");
    reveal_strlit("signature");
    reveal_strlit("affiliate");
    lemma_decimal_text(i);
    lemma_decimal_text(j);
    assert(variable_name("payload"@, i)[0] == 'p');
    assert(variable_name("signature"@, j)[0] == 's');
    assert(variable_name("signature"@, i)[0] == 's');
    assert(variable_name("affiliate"@, j)[0] == 'a');
    if i != j {
        lemma_same_prefix_same_place("payload"@, i, j);
        lemma_same_prefix_same_place("signature"@, i, j);
        lemma_same_prefix_same_place("affiliate"@, i, j);
    }
}

/// Two names with the same prefix are the same only at the same place.
proof fn lemma_same_prefix_same_place(prefix: Seq<char>, i: nat, j: nat)
    requires
        i != j,
    ensures
        variable_name(prefix, i) != variable_name(prefix, j),
{
    let a = variable_name(prefix, i);
    let b = variable_name(prefix, j);
    if a == b {
        assert(a.subrange(prefix.len() as int, a.len() as int) =~= decimal_text(i));
        assert(b.subrange(prefix.len() as int, b.len() as int) =~= decimal_text(j));
        lemma_decimal_text_injective(i, j);
    }
}

/// The name of the variable of the order at place `index` that begins with
/// `prefix`.
fn indexed_name(prefix: &str, index: usize) -> (r: String)
    ensures
        r@ == variable_name(prefix@, index as nat),
{
    let digits: String = u64_to_text(index as u64);
    let mut name: String = String::from_str(prefix);
    name.append(digits.as_str());
    name
}

/// Assembles the batch of the orders `variables`, in their order.
pub fn multi_query_body(variables: &Vec<place_limit_order::Variables>) -> (body: MultiQueryBody)
    ensures
        is_batch(body, variables@),
{
    let n: usize = variables.len();
    let mut map: Vec<JsonField> = Vec::new();
    let mut params: String = String::new();
    let mut calls: String = String::new();
    let mut index: usize = 0;
    while index < n
        invariant
            index <= n,
            n == variables@.len(),
            params@ == params_text(index as nat),
            calls@ == calls_text(index as nat),
            map@.len() == 3 * index,
            forall|i: int| 0 <= i < index ==> are_entries_of(map@, i, #[trigger] variables@[i]),
        decreases n - index,
    {
        let variable: &place_limit_order::Variables = &variables[index];
        let payload: String = indexed_name("payload", index);
        let signature: String = indexed_name("signature", index);
        let affiliate: String = indexed_name("affiliate", index);
        let digits: String = u64_to_text(index as u64);

        let mut param: String = String::from_str("$");
        param.append(payload.as_str());
        param.append(": PlaceLimitOrderParams!, $");
        param.append(signature.as_str());
        param.append(": Signature!, $");
        param.append(affiliate.as_str());
        param.append(": AffiliateDeveloperCode");
        if index > 0 {
            params.append(", ");
        }
        params.append(param.as_str());

        let mut next: String = String::from_str("\n                ");
        next.append(calls.as_str());
        next.append("\n                response");
        next.append(digits.as_str());
        next.append(": placeLimitOrder(payload: $");
        next.append(payload.as_str());
        next.append(", signature: $");
        next.append(signature.as_str());
        next.append(", affiliateDeveloperCode: $");
        next.append(affiliate.as_str());
        next.append(
            ") {\n                    id\n                    status\n                    ordersTillSignState,\n                    buyOrSell,\n                    market {\n                        name\n                    },\n                    placedAt,\n                    type\n                }\n                ",
        );
        calls = next;

        let ghost before = map@;
        map.push(JsonField { name: payload, value: variable.payload.to_json() });
        map.push(JsonField { name: signature, value: variable.signature.to_json() });
        map.push(JsonField { name: affiliate, value: JsonValue::optional_text(&variable.affiliate) });
        proof {
            assert forall|i: int| 0 <= i < index + 1 implies are_entries_of(
                map@,
                i,
                #[trigger] variables@[i],
            ) by {
                if i < index {
                    assert(are_entries_of(before, i, variables@[i]));
                    assert(map@[3 * i] == before[3 * i]);
                    assert(map@[3 * i + 1] == before[3 * i + 1]);
                    assert(map@[3 * i + 2] == before[3 * i + 2]);
                }
            }
        }
        index = index + 1;
    }
    let mut query: String = String::from_str("\n                mutation PlaceLimitOrder(");
    query.append(params.as_str());
    query.append(") {\n                    ");
    query.append(calls.as_str());
    query.append("\n                }\n            ");
    MultiQueryBody { variables: map, operation_name: "PlaceLimitOrder", query }
}

} // verus!

//! The canonical text of a structured document.
//!
//! The text holds no space. The members of an object stand in the rising
//! order of their names, whatever their order in the document, and the
//! members whose names are excluded are left out at every depth. So the text
//! depends on what the document says of the members that are kept, and on
//! nothing else.

use vstd::prelude::*;
use vstd::string::*;
use crate::canonical::json::{
    lemma_view_of_parts,
    model_fields,
    model_items,
    JsonField,
    JsonModel,
    JsonValue,
    MemberModel,
};
use crate::canonical::names::{
    compare_names,
    lemma_name_lt_irreflexive,
    lemma_name_lt_transitive,
    lemma_strictly_sorted_unique,
    name_lt,
    strictly_sorted,
    NameOrder,
};
use crate::errors::ProtocolError;
use crate::text::{i64_to_text, signed_decimal_text};

verus! {

/// The text that `serde_json::to_string` writes for the string `s`: the
/// string between quotation marks, with the characters escaped that JSON
/// asks to be escaped.
pub uninterp spec fn json_string_text(s: Seq<char>) -> Seq<char>;

/// Writes a string as JSON text with `serde_json::to_string`. For a string
/// that function has no way to fail: it fails only where the value's own
/// serialization fails or a map has a key that is no string. The text it
/// writes depends on the string alone, and has the name `json_string_text`.
#[verifier::external_body]
fn json_string(s: &str) -> (r: Option<String>)
    ensures
        r is Some,
        r->Some_0@ == json_string_text(s@),
{
    match serde_json::to_string(s) {
        Ok(text) => Some(text),
        Err(_) => None,
    }
}

/// The names that `excluded` lists.
pub open spec fn excluded_names(excluded: Seq<String>) -> Set<Seq<char>> {
    Set::new(|n: Seq<char>| exists|i: int| 0 <= i < excluded.len() && (#[trigger] excluded[i])@ == n)
}

/// Whether an object with the members `fields` has a member named `name`.
pub open spec fn has_name(fields: Seq<MemberModel>, name: Seq<char>) -> bool {
    exists|i: int| 0 <= i < fields.len() && (#[trigger] fields[i]).name == name
}

/// Whether `name` is the name of a member that is kept: one of `fields`
/// whose name is not excluded.
pub open spec fn is_kept(fields: Seq<MemberModel>, excluded: Set<Seq<char>>, name: Seq<char>) -> bool {
    has_name(fields, name) && !excluded.contains(name)
}

/// Where a member named `name` stands in `fields`.
pub open spec fn index_of_name(fields: Seq<MemberModel>, name: Seq<char>) -> int {
    choose|i: int| 0 <= i < fields.len() && (#[trigger] fields[i]).name == name
}

/// No two members that are kept have the same name.
pub open spec fn has_distinct_kept_names(fields: Seq<MemberModel>, excluded: Set<Seq<char>>) -> bool {
    forall|i: int, j: int|
        0 <= i < j < fields.len() && (#[trigger] fields[i]).name == (#[trigger] fields[j]).name
            ==> excluded.contains(fields[i].name)
}

/// `names` holds the names of the members that are kept, in rising order.
pub open spec fn is_kept_order(
    names: Seq<Seq<char>>,
    fields: Seq<MemberModel>,
    excluded: Set<Seq<char>>,
) -> bool {
    &&& strictly_sorted(names)
    &&& forall|n: Seq<char>| names.contains(n) <==> is_kept(fields, excluded, n)
}

/// The names of the members that are kept, in rising order.
pub open spec fn kept_names(fields: Seq<MemberModel>, excluded: Set<Seq<char>>) -> Seq<Seq<char>> {
    choose|names: Seq<Seq<char>>| is_kept_order(names, fields, excluded)
}

/// Whether a document has a canonical text: in every object that the text
/// reaches, no two members that are kept have the same name.
pub open spec fn well_formed(m: JsonModel, excluded: Set<Seq<char>>) -> bool
    decreases m,
{
    match m {
        JsonModel::List(items) => {
            forall|i: int| 0 <= i < items.len() ==> well_formed(#[trigger] items[i], excluded)
        },
        JsonModel::Object(fields) => {
            &&& has_distinct_kept_names(fields, excluded)
            &&& forall|i: int|
                0 <= i < fields.len() && !excluded.contains((#[trigger] fields[i]).name)
                    ==> well_formed(fields[i].value, excluded)
        },
        _ => true,
    }
}

/// The canonical text of a document.
pub open spec fn canonical_text(m: JsonModel, excluded: Set<Seq<char>>) -> Seq<char>
    decreases m, 0nat,
{
    match m {
        JsonModel::Null => "null"@,
        JsonModel::Bool(b) => if b {
            "true"@
        } else {
            "false"@
        },
        JsonModel::Integer(i) => signed_decimal_text(i),
        JsonModel::Text(s) => json_string_text(s),
        JsonModel::List(items) => seq!['['] + items_text(items, items.len(), excluded) + seq![']'],
        JsonModel::Object(fields) => seq!['{'] + members_text(
            fields,
            kept_names(fields, excluded),
            excluded,
        ) + seq!['}'],
    }
}

/// The canonical texts of the first `n` of `items`, with commas between.
pub open spec fn items_text(items: Seq<JsonModel>, n: nat, excluded: Set<Seq<char>>) -> Seq<char>
    decreases items, n,
{
    if n == 0 || n > items.len() {
        Seq::empty()
    } else if n == 1 {
        canonical_text(items[0], excluded)
    } else {
        items_text(items, (n - 1) as nat, excluded) + seq![','] + canonical_text(
            items[n - 1],
            excluded,
        )
    }
}

/// The canonical text of the member of `fields` named `name`: the name as a
/// JSON string, a colon, and the canonical text of the value.
pub open spec fn member_text(fields: Seq<MemberModel>, name: Seq<char>, excluded: Set<Seq<char>>) -> Seq<char>
    decreases fields, 0nat,
{
    if has_name(fields, name) {
        json_string_text(name) + seq![':'] + canonical_text(
            fields[index_of_name(fields, name)].value,
            excluded,
        )
    } else {
        Seq::empty()
    }
}

/// The canonical texts of the members named by `names`, in the order of
/// `names`, with commas between.
pub open spec fn members_text(
    fields: Seq<MemberModel>,
    names: Seq<Seq<char>>,
    excluded: Set<Seq<char>>,
) -> Seq<char>
    decreases fields, names.len() + 1,
{
    if names.len() == 0 {
        Seq::empty()
    } else if names.len() == 1 {
        member_text(fields, names[0], excluded)
    } else {
        members_text(fields, names.drop_last(), excluded) + seq![','] + member_text(
            fields,
            names.last(),
            excluded,
        )
    }
}

/// The canonical string of a request: the name of the operation, a comma,
/// and the canonical text of the document.
pub open spec fn canonical_string(operation: Seq<char>, m: JsonModel, excluded: Set<Seq<char>>) -> Seq<char> {
    operation + seq![','] + canonical_text(m, excluded)
}

/// The name at place `p` of an order of members.
pub open spec fn name_at(fields: Seq<JsonField>, order: Seq<usize>, p: int) -> Seq<char> {
    fields[order[p] as int].name@
}

/// The names that an order of members runs through.
pub open spec fn order_names(fields: Seq<JsonField>, order: Seq<usize>) -> Seq<Seq<char>> {
    Seq::new(order.len(), |p: int| name_at(fields, order, p))
}

/// Where the names of the kept members are distinct, a kept name tells its
/// member.
pub proof fn lemma_index_of_kept_name(fields: Seq<MemberModel>, excluded: Set<Seq<char>>, i: int)
    requires
        has_distinct_kept_names(fields, excluded),
        0 <= i < fields.len(),
        !excluded.contains(fields[i].name),
    ensures
        has_name(fields, fields[i].name),
        index_of_name(fields, fields[i].name) == i,
{
    let name = fields[i].name;
    let j = index_of_name(fields, name);
    assert(0 <= j < fields.len() && fields[j].name == name);
    if j < i {
        assert(fields[j].name == fields[i].name);
    }
    if i < j {
        assert(fields[i].name == fields[j].name);
    }
}

/// A rising sequence of the kept names is the sequence of the kept names.
pub proof fn lemma_kept_names_are(names: Seq<Seq<char>>, fields: Seq<MemberModel>, excluded: Set<Seq<char>>)
    requires
        is_kept_order(names, fields, excluded),
    ensures
        kept_names(fields, excluded) == names,
{
    let chosen = kept_names(fields, excluded);
    assert(is_kept_order(chosen, fields, excluded));
    lemma_strictly_sorted_unique(chosen, names);
}

/// The items of a list that has a canonical text have one.
pub proof fn lemma_well_formed_item(items: Seq<JsonModel>, excluded: Set<Seq<char>>, i: int)
    requires
        well_formed(JsonModel::List(items), excluded),
        0 <= i < items.len(),
    ensures
        well_formed(items[i], excluded),
{
    let m = JsonModel::List(items);
    assert(m->List_0[i] == items[i]);
    assert(well_formed(m->List_0[i], excluded));
}

/// Whether `name` is one of `excluded`.
fn is_excluded(name: &str, excluded: &Vec<String>) -> (r: bool)
    ensures
        r == excluded_names(excluded@).contains(name@),
{
    let wanted: String = String::from_str(name);
    let mut i: usize = 0;
    while i < excluded.len()
        invariant
            i <= excluded.len(),
            wanted@ == name@,
            forall|k: int| 0 <= k < i ==> (#[trigger] excluded@[k])@ != name@,
        decreases excluded.len() - i,
    {
        if excluded[i] == wanted {
            return true;
        }
        i = i + 1;
    }
    false
}

/// The places of the members that are kept, in the rising order of their
/// names; nothing where two of them have the same name.
fn kept_order(fields: &Vec<JsonField>, excluded: &Vec<String>) -> (r: Option<Vec<usize>>)
    ensures
        match r {
            Some(order) => {
                &&& has_distinct_kept_names(model_fields(fields@), excluded_names(excluded@))
                &&& is_kept_order(
                    order_names(fields@, order@),
                    model_fields(fields@),
                    excluded_names(excluded@),
                )
                &&& forall|p: int| 0 <= p < order@.len() ==> (#[trigger] order@[p]) < fields@.len()
                &&& forall|j: int|
                    0 <= j < fields@.len() && !excluded_names(excluded@).contains(
                        (#[trigger] fields@[j]).name@,
                    ) ==> exists|p: int| 0 <= p < order@.len() && #[trigger] order@[p] == j
            },
            None => !has_distinct_kept_names(model_fields(fields@), excluded_names(excluded@)),
        },
{
    let ghost mf = model_fields(fields@);
    let ghost ex = excluded_names(excluded@);
    let n: usize = fields.len();
    let mut order: Vec<usize> = Vec::new();
    let mut i: usize = 0;
    while i < n
        invariant
            i <= n,
            n == fields@.len(),
            mf == model_fields(fields@),
            ex == excluded_names(excluded@),
            forall|p: int|
                0 <= p < order@.len() ==> (#[trigger] order@[p]) < i && !ex.contains(
                    name_at(fields@, order@, p),
                ),
            forall|p: int, q: int|
                0 <= p < q < order@.len() ==> name_lt(
                    #[trigger] name_at(fields@, order@, p),
                    #[trigger] name_at(fields@, order@, q),
                ),
            forall|j: int|
                0 <= j < i && !ex.contains((#[trigger] fields@[j]).name@) ==> exists|p: int|
                    0 <= p < order@.len() && #[trigger] order@[p] == j,
        decreases n - i,
    {
        if !is_excluded(fields[i].name.as_str(), excluded) {
            let mut pos: usize = 0;
            let mut found: bool = false;
            while pos < order.len() && !found
                invariant
                    pos <= order@.len(),
                    i < n,
                    n == fields@.len(),
                    mf == model_fields(fields@),
                    ex == excluded_names(excluded@),
                    !ex.contains(fields@[i as int].name@),
                    forall|p: int|
                        0 <= p < order@.len() ==> (#[trigger] order@[p]) < i && !ex.contains(
                            name_at(fields@, order@, p),
                        ),
                    forall|k: int|
                        0 <= k < pos ==> name_lt(
                            #[trigger] name_at(fields@, order@, k),
                            fields@[i as int].name@,
                        ),
                    found ==> pos < order@.len() && name_lt(
                        fields@[i as int].name@,
                        name_at(fields@, order@, pos as int),
                    ),
                decreases order@.len() - pos + (if found { 0int } else { 1int }),
            {
                let other: usize = order[pos];
                match compare_names(fields[other].name.as_str(), fields[i].name.as_str()) {
                    NameOrder::Before => {
                        pos = pos + 1;
                    },
                    NameOrder::Same => {
                        proof {
                            assert(name_at(fields@, order@, pos as int) == fields@[other as int].name@);
                            assert(mf[other as int].name == mf[i as int].name);
                            assert(!ex.contains(mf[other as int].name));
                        }
                        return None;
                    },
                    NameOrder::After => {
                        found = true;
                    },
                }
            }
            let ghost before = order@;
            order.insert(pos, i);
            proof {
                let new_name = fields@[i as int].name@;
                assert forall|p: int| 0 <= p < order@.len() implies (#[trigger] order@[p]) < i + 1
                    && !ex.contains(name_at(fields@, order@, p)) by {
                    if p < pos {
                        assert(order@[p] == before[p]);
                        assert(name_at(fields@, before, p) == name_at(fields@, order@, p));
                    } else if p > pos {
                        assert(order@[p] == before[p - 1]);
                        assert(name_at(fields@, before, p - 1) == name_at(fields@, order@, p));
                    }
                }
                assert forall|p: int, q: int| 0 <= p < q < order@.len() implies name_lt(
                    #[trigger] name_at(fields@, order@, p),
                    #[trigger] name_at(fields@, order@, q),
                ) by {
                    let bp = if p < pos {
                        p
                    } else {
                        p - 1
                    };
                    let bq = if q < pos {
                        q
                    } else {
                        q - 1
                    };
                    if p != pos {
                        assert(order@[p] == before[bp]);
                        assert(name_at(fields@, before, bp) == name_at(fields@, order@, p));
                    }
                    if q != pos {
                        assert(order@[q] == before[bq]);
                        assert(name_at(fields@, before, bq) == name_at(fields@, order@, q));
                    }
                    if p == pos {
                        assert(name_at(fields@, order@, p) == new_name);
                        assert(found);
                        if bq > pos {
                            assert(name_lt(
                                name_at(fields@, before, pos as int),
                                name_at(fields@, before, bq),
                            ));
                            lemma_name_lt_transitive(
                                new_name,
                                name_at(fields@, before, pos as int),
                                name_at(fields@, before, bq),
                            );
                        }
                    } else if q == pos {
                        assert(name_at(fields@, order@, q) == new_name);
                        assert(name_lt(name_at(fields@, before, bp), new_name));
                    } else {
                        assert(name_lt(name_at(fields@, before, bp), name_at(fields@, before, bq)));
                    }
                }
                assert forall|j: int|
                    0 <= j < i + 1 && !ex.contains((#[trigger] fields@[j]).name@) implies exists|
                    p: int,
                | 0 <= p < order@.len() && #[trigger] order@[p] == j by {
                    if j == i {
                        assert(order@[pos as int] == j);
                    } else {
                        let p0 = choose|p: int| 0 <= p < before.len() && #[trigger] before[p] == j;
                        if p0 < pos {
                            assert(order@[p0] == j);
                        } else {
                            assert(order@[p0 + 1] == j);
                        }
                    }
                }
            }
        }
        i = i + 1;
    }
    proof {
        let names = order_names(fields@, order@);
        assert forall|a: int, b: int|
            0 <= a < b < mf.len() && (#[trigger] mf[a]).name == (#[trigger] mf[b]).name implies ex.contains(
            mf[a].name,
        ) by {
            if !ex.contains(mf[a].name) {
                assert(!ex.contains(fields@[a].name@));
                assert(!ex.contains(fields@[b].name@));
                let pa = choose|p: int| 0 <= p < order@.len() && #[trigger] order@[p] == a;
                let pb = choose|p: int| 0 <= p < order@.len() && #[trigger] order@[p] == b;
                lemma_name_lt_irreflexive(mf[a].name);
                if pa < pb {
                    assert(name_lt(name_at(fields@, order@, pa), name_at(fields@, order@, pb)));
                } else if pb < pa {
                    assert(name_lt(name_at(fields@, order@, pb), name_at(fields@, order@, pa)));
                }
            }
        }
        assert forall|p: int, q: int| 0 <= p < q < names.len() implies name_lt(
            #[trigger] names[p],
            #[trigger] names[q],
        ) by {
            assert(name_lt(name_at(fields@, order@, p), name_at(fields@, order@, q)));
        }
        assert forall|name: Seq<char>| names.contains(name) <==> is_kept(mf, ex, name) by {
            if names.contains(name) {
                let p = choose|p: int| 0 <= p < names.len() && names[p] == name;
                assert(name_at(fields@, order@, p) == name);
                assert(order@[p] < n);
                assert(mf[order@[p] as int].name == name);
            }
            if is_kept(mf, ex, name) {
                let j = choose|j: int| 0 <= j < mf.len() && (#[trigger] mf[j]).name == name;
                assert(fields@[j].name@ == name);
                let p = choose|p: int| 0 <= p < order@.len() && #[trigger] order@[p] == j;
                assert(names[p] == name);
            }
        }
        assert(has_distinct_kept_names(mf, ex));
        assert(strictly_sorted(names));
        assert(is_kept_order(names, mf, ex));
        assert forall|p: int| 0 <= p < order@.len() implies (#[trigger] order@[p]) < fields@.len() by {}
        assert forall|j: int|
            0 <= j < fields@.len() && !ex.contains((#[trigger] fields@[j]).name@) implies exists|
            p: int,
        | 0 <= p < order@.len() && #[trigger] order@[p] == j by {}
    }
    Some(order)
}

/// Writes the canonical text of a document. A document has none where an
/// object that the text reaches has two kept members of the same name.
pub fn write_canonical(value: &JsonValue, excluded: &Vec<String>) -> (r: Result<
    String,
    ProtocolError,
>)
    ensures
        match r {
            Ok(text) => well_formed(value@, excluded_names(excluded@)) && text@ == canonical_text(
                value@,
                excluded_names(excluded@),
            ),
            Err(e) => e == ProtocolError::SerializationFailure && !well_formed(
                value@,
                excluded_names(excluded@),
            ),
        },
    decreases value,
{
    let ghost ex = excluded_names(excluded@);
    proof {
        lemma_view_of_parts(*value);
    }
    match value {
        JsonValue::Null => Ok(String::from_str("null")),
        JsonValue::Bool(b) => if *b {
            Ok(String::from_str("true"))
        } else {
            Ok(String::from_str("false"))
        },
        JsonValue::Integer(i) => Ok(i64_to_text(*i)),
        JsonValue::Text(s) => match json_string(s.as_str()) {
            Some(text) => Ok(text),
            None => Err(ProtocolError::SerializationFailure),
        },
        JsonValue::List(items) => {
            let ghost models = model_items(items@);
            let mut out: String = String::from_str("[");
            let mut i: usize = 0;
            proof {
                reveal_strlit("[");
                reveal_strlit("]");
                reveal_strlit(",");
                assert(out@ =~= seq!['['] + items_text(models, 0, ex));
            }
            while i < items.len()
                invariant
                    i <= items.len(),
                    *value == JsonValue::List(*items),
                    value@ == JsonModel::List(models),
                    models == model_items(items@),
                    ex == excluded_names(excluded@),
                    ","@ == seq![','],
                    out@ == seq!['['] + items_text(models, i as nat, ex),
                    forall|k: int| 0 <= k < i ==> well_formed(#[trigger] models[k], ex),
                decreases items.len() - i,
            {
                proof {
                    assert(decreases_to!(*items => items[i as int]));
                }
                let text: String = match write_canonical(&items[i], excluded) {
                    Ok(text) => text,
                    Err(e) => {
                        proof {
                            assert(models[i as int] == items@[i as int]@);
                            assert(!well_formed(models[i as int], ex));
                            if well_formed(JsonModel::List(models), ex) {
                                lemma_well_formed_item(models, ex, i as int);
                            }
                        }
                        return Err(e);
                    },
                };
                let ghost before = out@;
                if i > 0 {
                    out.append(",");
                }
                out.append(text.as_str());
                proof {
                    assert(models[i as int] == items@[i as int]@);
                    if i > 0 {
                        assert(out@ =~= seq!['['] + (items_text(models, i as nat, ex) + seq![',']
                            + canonical_text(models[i as int], ex)));
                    } else {
                        assert(out@ =~= seq!['['] + canonical_text(models[0], ex));
                    }
                }
                i = i + 1;
            }
            out.append("]");
            Ok(out)
        },
        JsonValue::Object(fields) => {
            let ghost mf = model_fields(fields@);
            let order: Vec<usize> = match kept_order(fields, excluded) {
                Some(order) => order,
                None => {
                    return Err(ProtocolError::SerializationFailure);
                },
            };
            let ghost names = order_names(fields@, order@);
            let mut out: String = String::from_str("{");
            let mut p: usize = 0;
            proof {
                reveal_strlit("{");
                reveal_strlit("}");
                reveal_strlit(",");
                reveal_strlit(":");
                lemma_kept_names_are(names, mf, ex);
                assert(names.subrange(0, 0) =~= Seq::<Seq<char>>::empty());
                assert(out@ =~= seq!['{'] + members_text(mf, names.subrange(0, 0), ex));
            }
            while p < order.len()
                invariant
                    p <= order@.len(),
                    *value == JsonValue::Object(*fields),
                    value@ == JsonModel::Object(mf),
                    mf == model_fields(fields@),
                    ex == excluded_names(excluded@),
                    names == order_names(fields@, order@),
                    has_distinct_kept_names(mf, ex),
                    is_kept_order(names, mf, ex),
                    forall|q: int| 0 <= q < order@.len() ==> (#[trigger] order@[q]) < fields@.len(),
                    ","@ == seq![','],
                    ":"@ == seq![':'],
                    out@ == seq!['{'] + members_text(mf, names.subrange(0, p as int), ex),
                    forall|q: int| 0 <= q < p ==> well_formed(mf[(#[trigger] order@[q]) as int].value, ex),
                decreases order@.len() - p,
            {
                let idx: usize = order[p];
                let field: &JsonField = &fields[idx];
                proof {
                    assert(names[p as int] == name_at(fields@, order@, p as int));
                    assert(names.contains(names[p as int]));
                    assert(mf[idx as int].name == names[p as int]);
                    lemma_index_of_kept_name(mf, ex, idx as int);
                }
                let name_text: String = match json_string(field.name.as_str()) {
                    Some(text) => text,
                    None => {
                        return Err(ProtocolError::SerializationFailure);
                    },
                };
                proof {
                    assert(decreases_to!(*fields => fields[idx as int]));
                    assert(decreases_to!(fields[idx as int] => fields[idx as int].value));
                }
                let value_text: String = match write_canonical(&field.value, excluded) {
                    Ok(text) => text,
                    Err(e) => {
                        proof {
                            assert(!well_formed(mf[idx as int].value, ex));
                            assert(!ex.contains(mf[idx as int].name));
                        }
                        return Err(e);
                    },
                };
                if p > 0 {
                    out.append(",");
                }
                out.append(name_text.as_str());
                out.append(":");
                out.append(value_text.as_str());
                proof {
                    let shorter = names.subrange(0, p as int);
                    let longer = names.subrange(0, p + 1);
                    assert(longer.drop_last() =~= shorter);
                    assert(longer.last() == names[p as int]);
                    let member = member_text(mf, names[p as int], ex);
                    assert(member == json_string_text(names[p as int]) + seq![':'] + canonical_text(
                        mf[idx as int].value,
                        ex,
                    ));
                    if p > 0 {
                        assert(out@ =~= seq!['{'] + (members_text(mf, shorter, ex) + seq![',']
                            + member));
                    } else {
                        assert(longer[0] == names[0]);
                        assert(out@ =~= seq!['{'] + member);
                    }
                }
                p = p + 1;
            }
            proof {
                assert(names.subrange(0, p as int) =~= names);
                assert forall|i: int|
                    0 <= i < mf.len() && !ex.contains((#[trigger] mf[i]).name) implies well_formed(
                    mf[i].value,
                    ex,
                ) by {
                    assert(!ex.contains(fields@[i].name@));
                    let q = choose|q: int| 0 <= q < order@.len() && #[trigger] order@[q] == i;
                    assert(well_formed(mf[order@[q] as int].value, ex));
                }
            }
            out.append("}");
            Ok(out)
        },
    }
}

/// Generates the canonical string of a request: the name of the operation,
/// a comma, and the canonical text of `json` without the members named in
/// `not_included`. Two requests with the same fields give different strings
/// under different operation names.
pub fn general_canonical_string(
    request_name: &str,
    json: &JsonValue,
    not_included: &Vec<String>,
) -> (r: Result<String, ProtocolError>)
    ensures
        match r {
            Ok(text) => well_formed(json@, excluded_names(not_included@)) && text@
                == canonical_string(request_name@, json@, excluded_names(not_included@)),
            Err(e) => e == ProtocolError::SerializationFailure && !well_formed(
                json@,
                excluded_names(not_included@),
            ),
        },
{
    let text: String = match write_canonical(json, not_included) {
        Ok(text) => text,
        Err(e) => {
            return Err(e);
        },
    };
    proof {
        reveal_strlit(",");
    }
    let mut out: String = String::from_str(request_name);
    out.append(",");
    out.append(text.as_str());
    Ok(out)
}

} // verus!

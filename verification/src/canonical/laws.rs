//! What the canonical text does not depend on: the order in which the
//! members of an object were given, and what the excluded members hold.

use vstd::prelude::*;
use crate::canonical::json::{JsonModel, MemberModel};
use crate::canonical::names::{
    lemma_name_lt_total,
    lemma_name_lt_transitive,
    lemma_strictly_sorted_unique,
    name_lt,
    strictly_sorted,
};
use crate::canonical::writer::{
    canonical_string,
    canonical_text,
    has_distinct_kept_names,
    has_name,
    index_of_name,
    is_kept,
    is_kept_order,
    items_text,
    kept_names,
    lemma_index_of_kept_name,
    member_text,
    members_text,
    well_formed,
};

verus! {

/// Two documents say the same, whatever the order of their members and
/// whatever their excluded members hold: they are the same value, or lists
/// of equal length whose items say the same, or objects whose kept members
/// have distinct names, the same names in both, and under each name values
/// that say the same.
pub open spec fn same_document(a: JsonModel, b: JsonModel, excluded: Set<Seq<char>>) -> bool
    decreases a,
{
    match a {
        JsonModel::List(x) => {
            &&& b is List
            &&& x.len() == b->List_0.len()
            &&& forall|i: int|
                0 <= i < x.len() ==> same_document(#[trigger] x[i], b->List_0[i], excluded)
        },
        JsonModel::Object(x) => {
            &&& b is Object
            &&& has_distinct_kept_names(x, excluded)
            &&& has_distinct_kept_names(b->Object_0, excluded)
            &&& forall|n: Seq<char>|
                #[trigger] is_kept(x, excluded, n) <==> is_kept(b->Object_0, excluded, n)
            &&& forall|i: int|
                0 <= i < x.len() && !excluded.contains((#[trigger] x[i]).name) ==> same_document(
                    x[i].value,
                    b->Object_0[index_of_name(b->Object_0, x[i].name)].value,
                    excluded,
                )
        },
        _ => a == b,
    }
}

/// A document that has a canonical text says the same as itself.
pub proof fn lemma_same_document_reflexive(a: JsonModel, excluded: Set<Seq<char>>)
    requires
        well_formed(a, excluded),
    ensures
        same_document(a, a, excluded),
    decreases a,
{
    match a {
        JsonModel::List(x) => {
            assert forall|i: int| 0 <= i < x.len() implies same_document(
                #[trigger] x[i],
                a->List_0[i],
                excluded,
            ) by {
                assert(well_formed(a->List_0[i], excluded));
                lemma_same_document_reflexive(x[i], excluded);
            }
        },
        JsonModel::Object(x) => {
            assert forall|i: int|
                0 <= i < x.len() && !excluded.contains((#[trigger] x[i]).name) implies same_document(
                x[i].value,
                a->Object_0[index_of_name(a->Object_0, x[i].name)].value,
                excluded,
            ) by {
                lemma_index_of_kept_name(x, excluded, i);
                assert(well_formed(a->Object_0[i].value, excluded));
                lemma_same_document_reflexive(x[i].value, excluded);
            }
        },
        _ => {},
    }
}

/// Two objects say the same where their members have the same names place
/// by place, the kept names are distinct, and under each kept name the
/// values say the same.
pub proof fn lemma_same_members_same_document(
    x: Seq<MemberModel>,
    y: Seq<MemberModel>,
    excluded: Set<Seq<char>>,
)
    requires
        x.len() == y.len(),
        forall|i: int| 0 <= i < x.len() ==> (#[trigger] x[i]).name == y[i].name,
        has_distinct_kept_names(x, excluded),
        forall|i: int|
            0 <= i < x.len() && !excluded.contains((#[trigger] x[i]).name) ==> same_document(
                x[i].value,
                y[i].value,
                excluded,
            ),
    ensures
        same_document(JsonModel::Object(x), JsonModel::Object(y), excluded),
{
    let a = JsonModel::Object(x);
    let b = JsonModel::Object(y);
    assert(has_distinct_kept_names(y, excluded)) by {
        assert forall|i: int, j: int|
            0 <= i < j < y.len() && (#[trigger] y[i]).name == (#[trigger] y[j]).name implies excluded.contains(
            y[i].name,
        ) by {
            assert(x[i].name == x[j].name);
        }
    }
    assert forall|n: Seq<char>| #[trigger] is_kept(x, excluded, n) <==> is_kept(y, excluded, n) by {
        if has_name(x, n) {
            let i = choose|i: int| 0 <= i < x.len() && (#[trigger] x[i]).name == n;
            assert(y[i].name == n);
        }
        if has_name(y, n) {
            let i = choose|i: int| 0 <= i < y.len() && (#[trigger] y[i]).name == n;
            assert(x[i].name == n);
        }
    }
    assert forall|i: int|
        0 <= i < x.len() && !excluded.contains((#[trigger] x[i]).name) implies same_document(
        x[i].value,
        b->Object_0[index_of_name(b->Object_0, x[i].name)].value,
        excluded,
    ) by {
        assert(y[i].name == x[i].name);
        lemma_index_of_kept_name(y, excluded, i);
    }
    assert(a->Object_0 == x);
}

/// Two objects say the same where they have the same members place by
/// place but for members whose names are excluded, and the first has a
/// canonical text.
pub proof fn lemma_same_but_excluded(x: Seq<MemberModel>, y: Seq<MemberModel>, excluded: Set<Seq<char>>)
    requires
        x.len() == y.len(),
        well_formed(JsonModel::Object(x), excluded),
        forall|i: int| 0 <= i < x.len() ==> (#[trigger] x[i]).name == y[i].name,
        forall|i: int|
            0 <= i < x.len() && !excluded.contains((#[trigger] x[i]).name) ==> x[i].value
                == y[i].value,
    ensures
        same_document(JsonModel::Object(x), JsonModel::Object(y), excluded),
{
    let a = JsonModel::Object(x);
    assert(a->Object_0 == x);
    assert forall|i: int|
        0 <= i < x.len() && !excluded.contains((#[trigger] x[i]).name) implies same_document(
        x[i].value,
        y[i].value,
        excluded,
    ) by {
        assert(well_formed(a->Object_0[i].value, excluded));
        lemma_same_document_reflexive(x[i].value, excluded);
    }
    lemma_same_members_same_document(x, y, excluded);
}

/// A name that is in no rising sequence can be put into it.
pub proof fn lemma_insert_sorted(names: Seq<Seq<char>>, n: Seq<char>) -> (r: Seq<Seq<char>>)
    requires
        strictly_sorted(names),
        !names.contains(n),
    ensures
        strictly_sorted(r),
        forall|m: Seq<char>| r.contains(m) <==> (names.contains(m) || m == n),
    decreases names.len(),
{
    if names.len() == 0 {
        let r = seq![n];
        assert(r[0] == n);
        assert forall|m: Seq<char>| r.contains(m) <==> (names.contains(m) || m == n) by {
            if r.contains(m) {
                let p = choose|p: int| 0 <= p < r.len() && r[p] == m;
            }
        }
        r
    } else {
        let last = names.last();
        assert(names.contains(last));
        lemma_name_lt_total(last, n);
        if name_lt(last, n) {
            let r = names.push(n);
            assert forall|p: int, q: int| 0 <= p < q < r.len() implies name_lt(
                #[trigger] r[p],
                #[trigger] r[q],
            ) by {
                if q == names.len() {
                    if p < names.len() - 1 {
                        assert(name_lt(names[p], names[names.len() - 1]));
                        lemma_name_lt_transitive(names[p], last, n);
                    }
                } else {
                    assert(name_lt(names[p], names[q]));
                }
            }
            assert forall|m: Seq<char>| r.contains(m) <==> (names.contains(m) || m == n) by {
                if r.contains(m) {
                    let p = choose|p: int| 0 <= p < r.len() && r[p] == m;
                    if p < names.len() {
                        assert(names[p] == m);
                    }
                }
                if names.contains(m) {
                    let p = choose|p: int| 0 <= p < names.len() && names[p] == m;
                    assert(r[p] == m);
                }
                if m == n {
                    assert(r[names.len() as int] == m);
                }
            }
            r
        } else {
            let shorter = names.drop_last();
            assert(strictly_sorted(shorter)) by {
                assert forall|p: int, q: int| 0 <= p < q < shorter.len() implies name_lt(
                    #[trigger] shorter[p],
                    #[trigger] shorter[q],
                ) by {
                    assert(name_lt(names[p], names[q]));
                }
            }
            assert(!shorter.contains(n)) by {
                if shorter.contains(n) {
                    let p = choose|p: int| 0 <= p < shorter.len() && shorter[p] == n;
                    assert(names[p] == n);
                }
            }
            let r0 = lemma_insert_sorted(shorter, n);
            let r = r0.push(last);
            assert forall|p: int, q: int| 0 <= p < q < r.len() implies name_lt(
                #[trigger] r[p],
                #[trigger] r[q],
            ) by {
                if q == r0.len() {
                    assert(r0.contains(r0[p]));
                    if shorter.contains(r0[p]) {
                        let j = choose|j: int| 0 <= j < shorter.len() && shorter[j] == r0[p];
                        assert(name_lt(names[j], names[names.len() - 1]));
                    }
                } else {
                    assert(name_lt(r0[p], r0[q]));
                }
            }
            assert forall|m: Seq<char>| r.contains(m) <==> (names.contains(m) || m == n) by {
                if r.contains(m) {
                    let p = choose|p: int| 0 <= p < r.len() && r[p] == m;
                    if p < r0.len() {
                        assert(r0.contains(m));
                        if shorter.contains(m) {
                            let j = choose|j: int| 0 <= j < shorter.len() && shorter[j] == m;
                            assert(names[j] == m);
                        }
                    }
                }
                if names.contains(m) {
                    let p = choose|p: int| 0 <= p < names.len() && names[p] == m;
                    if p < names.len() - 1 {
                        assert(shorter[p] == m);
                        assert(r0.contains(m));
                        let j = choose|j: int| 0 <= j < r0.len() && r0[j] == m;
                        assert(r[j] == m);
                    } else {
                        assert(r[r0.len() as int] == m);
                    }
                }
                if m == n {
                    assert(r0.contains(m));
                    let j = choose|j: int| 0 <= j < r0.len() && r0[j] == m;
                    assert(r[j] == m);
                }
            }
            r
        }
    }
}

/// The names of the members that are kept can always be put in rising
/// order: `kept_names` is that order.
pub proof fn lemma_kept_names_exist(fields: Seq<MemberModel>, excluded: Set<Seq<char>>)
    ensures
        is_kept_order(kept_names(fields, excluded), fields, excluded),
    decreases fields.len(),
{
    if fields.len() == 0 {
        let names = Seq::<Seq<char>>::empty();
        assert(is_kept_order(names, fields, excluded));
    } else {
        let shorter = fields.drop_last();
        lemma_kept_names_exist(shorter, excluded);
        let names0 = kept_names(shorter, excluded);
        let n = fields.last().name;
        assert forall|m: Seq<char>|
            has_name(fields, m) <==> (has_name(shorter, m) || m == n) by {
            if has_name(fields, m) {
                let i = choose|i: int| 0 <= i < fields.len() && (#[trigger] fields[i]).name == m;
                if i < fields.len() - 1 {
                    assert(shorter[i].name == m);
                }
            }
            if has_name(shorter, m) {
                let i = choose|i: int| 0 <= i < shorter.len() && (#[trigger] shorter[i]).name == m;
                assert(fields[i].name == m);
            }
            if m == n {
                assert(fields[fields.len() - 1].name == m);
            }
        }
        if excluded.contains(n) || names0.contains(n) {
            assert(is_kept_order(names0, fields, excluded));
        } else {
            let names = lemma_insert_sorted(names0, n);
            assert(is_kept_order(names, fields, excluded));
        }
    }
}

/// Documents that say the same have the same canonical text.
pub proof fn lemma_same_document_same_text(a: JsonModel, b: JsonModel, excluded: Set<Seq<char>>)
    requires
        same_document(a, b, excluded),
    ensures
        canonical_text(a, excluded) == canonical_text(b, excluded),
    decreases a, 0nat,
{
    match a {
        JsonModel::List(x) => {
            let y = b->List_0;
            assert forall|i: int| 0 <= i < x.len() implies same_document(
                #[trigger] x[i],
                y[i],
                excluded,
            ) by {
                assert(a->List_0[i] == x[i]);
            }
            lemma_same_items(x, y, x.len(), excluded);
        },
        JsonModel::Object(x) => {
            let y = b->Object_0;
            lemma_kept_names_exist(x, excluded);
            lemma_kept_names_exist(y, excluded);
            let names = kept_names(x, excluded);
            assert forall|n: Seq<char>| names.contains(n) <==> kept_names(y, excluded).contains(
                n,
            ) by {
                assert(is_kept(x, excluded, n) <==> is_kept(y, excluded, n));
            }
            lemma_strictly_sorted_unique(names, kept_names(y, excluded));
            assert forall|p: int| 0 <= p < names.len() implies is_kept(
                x,
                excluded,
                #[trigger] names[p],
            ) by {
                assert(names.contains(names[p]));
            }
            assert forall|i: int|
                0 <= i < x.len() && !excluded.contains((#[trigger] x[i]).name) implies same_document(
                x[i].value,
                y[index_of_name(y, x[i].name)].value,
                excluded,
            ) by {
                assert(a->Object_0[i] == x[i]);
            }
            lemma_same_members(x, y, names, excluded);
        },
        _ => {},
    }
}

/// The items of two lists that say the same have the same texts.
pub proof fn lemma_same_items(x: Seq<JsonModel>, y: Seq<JsonModel>, n: nat, excluded: Set<Seq<char>>)
    requires
        x.len() == y.len(),
        n <= x.len(),
        forall|i: int| 0 <= i < x.len() ==> same_document(#[trigger] x[i], y[i], excluded),
    ensures
        items_text(x, n, excluded) == items_text(y, n, excluded),
    decreases x, n,
{
    if n > 0 {
        lemma_same_items(x, y, (n - 1) as nat, excluded);
        lemma_same_document_same_text(x[n - 1], y[n - 1], excluded);
    }
}

/// The members of two objects that say the same have the same texts.
pub proof fn lemma_same_members(
    x: Seq<MemberModel>,
    y: Seq<MemberModel>,
    names: Seq<Seq<char>>,
    excluded: Set<Seq<char>>,
)
    requires
        has_distinct_kept_names(x, excluded),
        has_distinct_kept_names(y, excluded),
        forall|n: Seq<char>| #[trigger] is_kept(x, excluded, n) <==> is_kept(y, excluded, n),
        forall|i: int|
            0 <= i < x.len() && !excluded.contains((#[trigger] x[i]).name) ==> same_document(
                x[i].value,
                y[index_of_name(y, x[i].name)].value,
                excluded,
            ),
        forall|p: int| 0 <= p < names.len() ==> is_kept(x, excluded, #[trigger] names[p]),
    ensures
        members_text(x, names, excluded) == members_text(y, names, excluded),
    decreases x, names.len(),
{
    if names.len() > 0 {
        let n = names.last();
        assert(is_kept(x, excluded, names[names.len() - 1]));
        assert(is_kept(y, excluded, n));
        let i = index_of_name(x, n);
        assert(0 <= i < x.len() && x[i].name == n);
        lemma_same_document_same_text(x[i].value, y[index_of_name(y, n)].value, excluded);
        assert(member_text(x, n, excluded) == member_text(y, n, excluded));
        if names.len() > 1 {
            let shorter = names.drop_last();
            assert forall|p: int| 0 <= p < shorter.len() implies is_kept(
                x,
                excluded,
                #[trigger] shorter[p],
            ) by {
                assert(shorter[p] == names[p]);
            }
            lemma_same_members(x, y, shorter, excluded);
        } else {
            assert(names[0] == n);
        }
    }
}

/// The canonical string is deterministic: two documents that say the same,
/// whatever the order of their members and the content of their excluded
/// members, give the same signing input under the same operation name.
pub proof fn lemma_canonical_string_is_deterministic(
    operation: Seq<char>,
    a: JsonModel,
    b: JsonModel,
    excluded: Set<Seq<char>>,
)
    requires
        same_document(a, b, excluded),
    ensures
        canonical_string(operation, a, excluded) == canonical_string(operation, b, excluded),
{
    lemma_same_document_same_text(a, b, excluded);
}

} // verus!

//! The order of field names: that of dictionaries, character by character.

use vstd::prelude::*;
use vstd::string::*;

verus! {

/// Whether the name `a` comes before the name `b`: at the first place where
/// they differ `a` has the smaller character, or `a` ends there and `b` does
/// not.
pub open spec fn name_lt(a: Seq<char>, b: Seq<char>) -> bool
    decreases a.len(),
{
    if b.len() == 0 {
        false
    } else if a.len() == 0 {
        true
    } else if a[0] != b[0] {
        (a[0] as int) < (b[0] as int)
    } else {
        name_lt(a.drop_first(), b.drop_first())
    }
}

/// How two names stand to each other.
#[derive(Clone, Copy, Debug, PartialEq, Eq, Structural)]
pub enum NameOrder {
    Before,
    Same,
    After,
}

/// No name comes before itself.
pub proof fn lemma_name_lt_irreflexive(a: Seq<char>)
    ensures
        !name_lt(a, a),
    decreases a.len(),
{
    if a.len() > 0 {
        lemma_name_lt_irreflexive(a.drop_first());
    }
}

/// What comes before a name that comes before a third, comes before the
/// third.
pub proof fn lemma_name_lt_transitive(a: Seq<char>, b: Seq<char>, c: Seq<char>)
    requires
        name_lt(a, b),
        name_lt(b, c),
    ensures
        name_lt(a, c),
    decreases a.len(),
{
    if a.len() > 0 && b.len() > 0 && c.len() > 0 {
        if a[0] == b[0] && b[0] == c[0] {
            lemma_name_lt_transitive(a.drop_first(), b.drop_first(), c.drop_first());
        }
    }
}

/// Of two names one comes before the other, or they are the same name.
pub proof fn lemma_name_lt_total(a: Seq<char>, b: Seq<char>)
    ensures
        name_lt(a, b) || a == b || name_lt(b, a),
    decreases a.len(),
{
    if a.len() == 0 || b.len() == 0 {
        if a.len() == 0 && b.len() == 0 {
            assert(a =~= b);
        }
    } else if a[0] == b[0] {
        lemma_name_lt_total(a.drop_first(), b.drop_first());
        if a.drop_first() == b.drop_first() {
            assert(a =~= seq![a[0]] + a.drop_first());
            assert(b =~= seq![b[0]] + b.drop_first());
        }
    } else {
        assert(a[0] as int != b[0] as int);
    }
}

/// The names of `names` stand in rising order, no two the same.
pub open spec fn strictly_sorted(names: Seq<Seq<char>>) -> bool {
    forall|i: int, j: int| 0 <= i < j < names.len() ==> name_lt(#[trigger] names[i], #[trigger] names[j])
}

/// Two rising sequences of names that hold the same names are the same
/// sequence.
pub proof fn lemma_strictly_sorted_unique(a: Seq<Seq<char>>, b: Seq<Seq<char>>)
    requires
        strictly_sorted(a),
        strictly_sorted(b),
        forall|n: Seq<char>| a.contains(n) <==> b.contains(n),
    ensures
        a == b,
    decreases a.len(),
{
    if a.len() == 0 {
        if b.len() > 0 {
            assert(b.contains(b[0]));
            assert(a.contains(b[0]));
        }
        assert(a =~= b);
    } else {
        let x = a.last();
        assert(a.contains(x));
        assert(b.contains(x));
        let y = b.last();
        assert(b.contains(y));
        assert(a.contains(y));
        let j = choose|j: int| 0 <= j < b.len() && b[j] == x;
        let i = choose|i: int| 0 <= i < a.len() && a[i] == y;
        if j < b.len() - 1 {
            assert(name_lt(b[j], b[b.len() - 1]));
            if i < a.len() - 1 {
                assert(name_lt(a[i], a[a.len() - 1]));
                lemma_name_lt_transitive(x, y, x);
            }
            lemma_name_lt_irreflexive(x);
        }
        assert(x == y);
        let a0 = a.drop_last();
        let b0 = b.drop_last();
        assert forall|n: Seq<char>| a0.contains(n) <==> b0.contains(n) by {
            lemma_name_lt_irreflexive(x);
            if a0.contains(n) {
                let p = choose|p: int| 0 <= p < a0.len() && a0[p] == n;
                assert(name_lt(a[p], a[a.len() - 1]));
                assert(a.contains(n));
                let q = choose|q: int| 0 <= q < b.len() && b[q] == n;
                assert(b0[q] == n);
            }
            if b0.contains(n) {
                let p = choose|p: int| 0 <= p < b0.len() && b0[p] == n;
                assert(name_lt(b[p], b[b.len() - 1]));
                assert(b.contains(n));
                let q = choose|q: int| 0 <= q < a.len() && a[q] == n;
                assert(a0[q] == n);
            }
        }
        assert(strictly_sorted(a0)) by {
            assert forall|p: int, q: int| 0 <= p < q < a0.len() implies name_lt(
                #[trigger] a0[p],
                #[trigger] a0[q],
            ) by {
                assert(name_lt(a[p], a[q]));
            }
        }
        assert(strictly_sorted(b0)) by {
            assert forall|p: int, q: int| 0 <= p < q < b0.len() implies name_lt(
                #[trigger] b0[p],
                #[trigger] b0[q],
            ) by {
                assert(name_lt(b[p], b[q]));
            }
        }
        lemma_strictly_sorted_unique(a0, b0);
        assert(a =~= a0.push(x));
        assert(b =~= b0.push(y));
    }
}

/// Tells how the name `a` stands to the name `b`.
pub fn compare_names(a: &str, b: &str) -> (r: NameOrder)
    ensures
        r is Before <==> name_lt(a@, b@),
        r is Same <==> a@ == b@,
        r is After <==> name_lt(b@, a@),
{
    let la: usize = a.unicode_len();
    let lb: usize = b.unicode_len();
    let mut i: usize = 0;
    proof {
        assert(a@.subrange(0, la as int) =~= a@);
        assert(b@.subrange(0, lb as int) =~= b@);
        lemma_name_lt_irreflexive(a@);
        lemma_name_lt_total(a@, b@);
        if name_lt(a@, b@) && name_lt(b@, a@) {
            lemma_name_lt_transitive(a@, b@, a@);
        }
    }
    while i < la && i < lb
        invariant
            i <= la,
            i <= lb,
            la == a@.len(),
            lb == b@.len(),
            name_lt(a@, b@) == name_lt(a@.subrange(i as int, la as int), b@.subrange(i as int, lb as int)),
            name_lt(b@, a@) == name_lt(b@.subrange(i as int, lb as int), a@.subrange(i as int, la as int)),
            (a@ == b@) ==> a@.subrange(i as int, la as int) == b@.subrange(i as int, lb as int),
            !(name_lt(a@, b@) && name_lt(b@, a@)),
            name_lt(a@, b@) || a@ == b@ || name_lt(b@, a@),
            a@ == b@ ==> !name_lt(a@, b@) && !name_lt(b@, a@),
        decreases la - i,
    {
        let ca: char = a.get_char(i);
        let cb: char = b.get_char(i);
        proof {
            let ra = a@.subrange(i as int, la as int);
            let rb = b@.subrange(i as int, lb as int);
            assert(ra[0] == ca);
            assert(rb[0] == cb);
            assert(ra.drop_first() =~= a@.subrange(i + 1, la as int));
            assert(rb.drop_first() =~= b@.subrange(i + 1, lb as int));
        }
        if ca < cb {
            return NameOrder::Before;
        }
        if cb < ca {
            return NameOrder::After;
        }
        assert(ca == cb) by {
            assert(ca as int == cb as int);
        }
        i = i + 1;
    }
    proof {
        let ra = a@.subrange(i as int, la as int);
        let rb = b@.subrange(i as int, lb as int);
        if la == lb {
            assert(ra =~= rb);
            lemma_name_lt_irreflexive(ra);
        }
    }
    if la == lb {
        NameOrder::Same
    } else if i == la {
        NameOrder::Before
    } else {
        NameOrder::After
    }
}

} // verus!

//! The product of two sequences: one entry for every pair of an item of the
//! first with an item of the second, row by row.

use vstd::prelude::*;

verus! {

/// The entries that pair `x` with each item of `ys`, in the order of `ys`.
pub open spec fn row<A, B, C>(x: A, ys: Seq<B>, f: spec_fn(A, B) -> C) -> Seq<C> {
    Seq::new(ys.len(), |j: int| f(x, ys[j]))
}

/// The entries that pair each item of `xs` with each item of `ys`: the row
/// of the first item of `xs`, then the row of the second, and so on.
pub open spec fn product<A, B, C>(xs: Seq<A>, ys: Seq<B>, f: spec_fn(A, B) -> C) -> Seq<C>
    decreases xs.len(),
{
    if xs.len() == 0 {
        Seq::empty()
    } else {
        product(xs.drop_last(), ys, f) + row(xs.last(), ys, f)
    }
}

/// The product has as many entries as there are pairs.
pub proof fn lemma_product_len<A, B, C>(xs: Seq<A>, ys: Seq<B>, f: spec_fn(A, B) -> C)
    ensures
        product(xs, ys, f).len() == xs.len() * ys.len(),
    decreases xs.len(),
{
    if xs.len() > 0 {
        lemma_product_len(xs.drop_last(), ys, f);
        assert((xs.len() - 1) * ys.len() + ys.len() == xs.len() * ys.len())
            by (nonlinear_arith);
    }
}

/// The pair of the item at `i` with the item at `j` stands at `i * |ys| + j`.
pub proof fn lemma_product_index<A, B, C>(
    xs: Seq<A>,
    ys: Seq<B>,
    f: spec_fn(A, B) -> C,
    i: int,
    j: int,
)
    requires
        0 <= i < xs.len(),
        0 <= j < ys.len(),
    ensures
        0 <= i * ys.len() + j < product(xs, ys, f).len(),
        product(xs, ys, f)[i * ys.len() + j] == f(xs[i], ys[j]),
    decreases xs.len(),
{
    let m = ys.len() as int;
    let before = xs.drop_last();
    lemma_product_len(xs, ys, f);
    lemma_product_len(before, ys, f);
    assert(0 <= i * m && i * m + m <= xs.len() * m) by (nonlinear_arith)
        requires
            0 <= i < xs.len(),
            0 <= m,
    ;
    if i == xs.len() - 1 {
        assert(product(xs, ys, f)[before.len() * m + j] == row(xs.last(), ys, f)[j]);
    } else {
        lemma_product_index(before, ys, f, i, j);
        assert(before[i] == xs[i]);
    }
}

/// Two places in a product are the same place only if they pair the same
/// two items: `i * m + j` tells `i` and `j`.
pub proof fn lemma_place_tells_pair(m: int, i: int, j: int, i2: int, j2: int)
    requires
        0 <= j < m,
        0 <= j2 < m,
        0 <= i,
        0 <= i2,
        i * m + j == i2 * m + j2,
    ensures
        i == i2,
        j == j2,
{
    if i < i2 {
        assert(i * m + m <= i2 * m) by (nonlinear_arith)
            requires
                i + 1 <= i2,
                0 < m,
        ;
    }
    if i2 < i {
        assert(i2 * m + m <= i * m) by (nonlinear_arith)
            requires
                i2 + 1 <= i,
                0 < m,
        ;
    }
}

/// Every place of a product holds the pair of exactly one item of `xs` with
/// one item of `ys`: that of the items at `k / |ys|` and `k % |ys|`.
pub proof fn lemma_product_place<A, B, C>(
    xs: Seq<A>,
    ys: Seq<B>,
    f: spec_fn(A, B) -> C,
    k: int,
)
    requires
        0 <= k < product(xs, ys, f).len(),
    ensures
        ys.len() > 0,
        0 <= k / (ys.len() as int) < xs.len(),
        0 <= k % (ys.len() as int) < ys.len(),
        k == (k / (ys.len() as int)) * ys.len() + k % (ys.len() as int),
        product(xs, ys, f)[k] == f(xs[k / (ys.len() as int)], ys[k % (ys.len() as int)]),
{
    let m = ys.len() as int;
    lemma_product_len(xs, ys, f);
    if m == 0 {
        assert(xs.len() * 0 == 0) by (nonlinear_arith);
    }
    let i = k / m;
    let j = k % m;
    assert(k == i * m + j && 0 <= j < m && 0 <= i) by (nonlinear_arith)
        requires
            i == k / m,
            j == k % m,
            0 <= k,
            0 < m,
    ;
    if i >= xs.len() {
        assert(i * m >= xs.len() * m) by (nonlinear_arith)
            requires
                i >= xs.len(),
                0 < m,
        ;
    }
    lemma_product_index(xs, ys, f, i, j);
}

/// A product that has grown by whole rows and part of one more row: adding
/// the next entry of that row, and closing the row when it is full.
pub proof fn lemma_product_grows<A, B, C>(
    xs: Seq<A>,
    ys: Seq<B>,
    f: spec_fn(A, B) -> C,
    i: int,
    j: int,
)
    requires
        0 <= i < xs.len(),
        0 <= j < ys.len(),
    ensures
        (product(xs.subrange(0, i), ys, f) + row(xs[i], ys, f).subrange(0, j)).push(
            f(xs[i], ys[j]),
        ) == product(xs.subrange(0, i), ys, f) + row(xs[i], ys, f).subrange(0, j + 1),
        product(xs.subrange(0, i), ys, f) + row(xs[i], ys, f).subrange(0, ys.len() as int)
            == product(xs.subrange(0, i + 1), ys, f),
        product(xs.subrange(0, i + 1), ys, f) + row(xs[i], ys, f).subrange(0, 0) == product(
            xs.subrange(0, i + 1),
            ys,
            f,
        ),
{
    let done = product(xs.subrange(0, i), ys, f);
    let this = row(xs[i], ys, f);
    assert((done + this.subrange(0, j)).push(f(xs[i], ys[j])) =~= done + this.subrange(0, j + 1));
    assert(this.subrange(0, ys.len() as int) =~= this);
    let next = xs.subrange(0, i + 1);
    assert(next.drop_last() =~= xs.subrange(0, i));
    assert(next.last() == xs[i]);
    assert(product(next, ys, f) + this.subrange(0, 0) =~= product(next, ys, f));
}

} // verus!

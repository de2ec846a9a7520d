//! Markets: ordered pairs of assets, and the names under which they trade.

use vstd::prelude::*;
use vstd::string::*;
use crate::types::asset::{has_no_separator, separator, Asset, AssetOfPrecision, Blockchain};

verus! {

/// The name of the market that trades `a` against `b`.
pub open spec fn pair_name(a: Seq<char>, b: Seq<char>) -> Seq<char> {
    a + seq![separator()] + b
}

/// `i` is where the last separator of `s` stands.
pub open spec fn is_last_separator(s: Seq<char>, i: int) -> bool {
    &&& 0 <= i < s.len()
    &&& s[i] == separator()
    &&& forall|k: int| i < k < s.len() ==> s[k] != separator()
}

/// Where the last separator of `s` stands, or -1 where it has none.
pub open spec fn last_separator(s: Seq<char>) -> int {
    if exists|i: int| is_last_separator(s, i) {
        choose|i: int| is_last_separator(s, i)
    } else {
        -1
    }
}

/// The name `s` with its parts, as the separator divides them, in the
/// opposite order: the last part comes first, then a separator and the
/// reversal of what stood before it.
pub open spec fn reverse_name(s: Seq<char>) -> Seq<char>
    decreases s.len(),
{
    let i = last_separator(s);
    if 0 <= i < s.len() {
        s.subrange(i + 1, s.len() as int) + seq![separator()] + reverse_name(s.subrange(0, i))
    } else {
        s
    }
}

/// The last separator stands where a separator is found that none follows,
/// and nowhere if none is found.
pub proof fn lemma_last_separator(s: Seq<char>, i: int)
    requires
        -1 <= i < s.len(),
        forall|k: int| i < k < s.len() ==> s[k] != separator(),
        i >= 0 ==> s[i] == separator(),
    ensures
        last_separator(s) == i,
{
    if exists|p: int| is_last_separator(s, p) {
        let p = choose|p: int| is_last_separator(s, p);
        assert(is_last_separator(s, p));
        if p > i {
            assert(s[p] != separator());
        }
        if p < i {
            assert(s[i] != separator());
        }
    } else {
        if i >= 0 {
            assert(is_last_separator(s, i));
        }
    }
}

/// Reversing the name of a pair gives the name of the opposite pair, where
/// neither part holds a separator.
pub proof fn lemma_reverse_pair_name(a: Seq<char>, b: Seq<char>)
    requires
        has_no_separator(a),
        has_no_separator(b),
    ensures
        reverse_name(pair_name(a, b)) == pair_name(b, a),
{
    let s = pair_name(a, b);
    let i = a.len() as int;
    assert(s[i] == separator());
    assert forall|k: int| i < k < s.len() implies s[k] != separator() by {
        assert(s[k] == b[k - i - 1]);
    }
    lemma_last_separator(s, i);
    assert(s.subrange(i + 1, s.len() as int) =~= b);
    assert(s.subrange(0, i) =~= a);
    assert forall|k: int| -1 < k < a.len() implies a[k] != separator() by {}
    lemma_last_separator(a, -1);
    assert(reverse_name(a) == a);
}

/// A name in which no separator is the last one holds no separator.
pub proof fn lemma_without_last_separator(s: Seq<char>)
    requires
        last_separator(s) < 0,
    ensures
        has_no_separator(s),
        reverse_name(s) == s,
    decreases s.len(),
{
    if exists|i: int| is_last_separator(s, i) {
        let i = choose|i: int| is_last_separator(s, i);
        assert(is_last_separator(s, i));
    } else {
        assert forall|k: int| 0 <= k < s.len() implies #[trigger] s[k] != separator() by {
            if s[k] == separator() {
                lemma_some_separator_is_last(s, k);
            }
        }
    }
}

/// Where a name holds a separator, one of its separators is the last.
pub proof fn lemma_some_separator_is_last(s: Seq<char>, k: int)
    requires
        0 <= k < s.len(),
        s[k] == separator(),
    ensures
        exists|i: int| is_last_separator(s, i),
    decreases s.len() - k,
{
    if exists|j: int| k < j < s.len() && s[j] == separator() {
        let j = choose|j: int| k < j < s.len() && s[j] == separator();
        lemma_some_separator_is_last(s, j);
    } else {
        assert(is_last_separator(s, k));
    }
}

/// The last separator of a name that has one stands in the name, and no
/// separator follows it.
pub proof fn lemma_with_last_separator(s: Seq<char>)
    requires
        last_separator(s) >= 0,
    ensures
        is_last_separator(s, last_separator(s)),
        has_no_separator(s.subrange(last_separator(s) + 1, s.len() as int)),
{
    let i = last_separator(s);
    assert(is_last_separator(s, i));
    let tail = s.subrange(i + 1, s.len() as int);
    assert forall|k: int| 0 <= k < tail.len() implies #[trigger] tail[k] != separator() by {
        assert(tail[k] == s[k + i + 1]);
    }
}

/// Reversing a name that begins with a part without separator puts that
/// part last.
pub proof fn lemma_reverse_puts_first_part_last(t: Seq<char>, x: Seq<char>)
    requires
        has_no_separator(t),
    ensures
        reverse_name(pair_name(t, x)) == pair_name(reverse_name(x), t),
    decreases x.len(),
{
    let s = pair_name(t, x);
    let at = t.len() as int;
    assert(s[at] == separator());
    assert forall|k: int| 0 <= k < at implies #[trigger] s[k] != separator() by {
        assert(s[k] == t[k]);
    }
    lemma_last_separator(t, -1);
    if last_separator(x) < 0 {
        lemma_without_last_separator(x);
        assert forall|k: int| at < k < s.len() implies s[k] != separator() by {
            assert(s[k] == x[k - at - 1]);
        }
        lemma_last_separator(s, at);
        assert(s.subrange(at + 1, s.len() as int) =~= x);
        assert(s.subrange(0, at) =~= t);
        assert(reverse_name(t) == t);
        assert(reverse_name(s) == x + seq![separator()] + reverse_name(t));
        assert(reverse_name(s) =~= pair_name(reverse_name(x), t));
    } else {
        lemma_with_last_separator(x);
        let j = last_separator(x);
        let tail = x.subrange(j + 1, x.len() as int);
        let head = x.subrange(0, j);
        let i = at + 1 + j;
        assert(s[i] == x[j]);
        assert forall|k: int| i < k < s.len() implies s[k] != separator() by {
            assert(s[k] == x[k - at - 1]);
        }
        lemma_last_separator(s, i);
        assert(s.subrange(i + 1, s.len() as int) =~= tail);
        assert(s.subrange(0, i) =~= pair_name(t, head));
        lemma_reverse_puts_first_part_last(t, head);
        assert(reverse_name(s) == tail + seq![separator()] + reverse_name(pair_name(t, head)));
        assert(reverse_name(x) == tail + seq![separator()] + reverse_name(head));
        assert(reverse_name(s) =~= pair_name(reverse_name(x), t));
    }
}

/// Reversing a name twice gives the name back.
pub proof fn lemma_reverse_name_twice(s: Seq<char>)
    ensures
        reverse_name(reverse_name(s)) == s,
    decreases s.len(),
{
    if last_separator(s) < 0 {
        lemma_without_last_separator(s);
    } else {
        lemma_with_last_separator(s);
        let i = last_separator(s);
        let tail = s.subrange(i + 1, s.len() as int);
        let head = s.subrange(0, i);
        lemma_reverse_name_twice(head);
        assert(reverse_name(s) == pair_name(tail, reverse_name(head)));
        lemma_reverse_puts_first_part_last(tail, reverse_name(head));
        assert(pair_name(head, tail) =~= s);
    }
}

/// A pair's name tells its two parts, where the first parts hold no
/// separator.
pub proof fn lemma_pair_name_injective(a: Seq<char>, b: Seq<char>, c: Seq<char>, d: Seq<char>)
    requires
        has_no_separator(a),
        has_no_separator(c),
        pair_name(a, b) == pair_name(c, d),
    ensures
        a == c,
        b == d,
{
    let s = pair_name(a, b);
    let t = pair_name(c, d);
    assert(s[a.len() as int] == separator());
    assert(t[c.len() as int] == separator());
    if a.len() < c.len() {
        assert(t[a.len() as int] == c[a.len() as int]);
    }
    if c.len() < a.len() {
        assert(s[c.len() as int] == a[c.len() as int]);
    }
    assert(a =~= s.subrange(0, a.len() as int));
    assert(c =~= t.subrange(0, c.len() as int));
    assert(b =~= s.subrange(a.len() as int + 1, s.len() as int));
    assert(d =~= t.subrange(c.len() as int + 1, t.len() as int));
}

/// Writes a name with its parts in the opposite order.
pub fn reverse_market_name(name: &str) -> (r: String)
    ensures
        r@ == reverse_name(name@),
{
    let n: usize = name.unicode_len();
    let mut out: String = String::new();
    let mut end: usize = n;
    let mut i: usize = n;
    proof {
        reveal_strlit("_");
        assert(name@.subrange(0, n as int) =~= name@);
        assert(out@ + name@ =~= name@);
    }
    while i > 0
        invariant
            i <= end <= n,
            n == name@.len(),
            "_"@ == seq![separator()],
            forall|k: int| i <= k < end ==> name@[k] != separator(),
            reverse_name(name@) == out@ + reverse_name(name@.subrange(0, end as int)),
        decreases i,
    {
        i = i - 1;
        let c: char = name.get_char(i);
        if c == '_' {
            let token: &str = name.substring_char(i + 1, end);
            let ghost before = out@;
            let ghost prefix = name@.subrange(0, end as int);
            out.append(token);
            out.append("_");
            proof {
                assert forall|k: int| i < k < prefix.len() implies prefix[k] != separator() by {
                    assert(prefix[k] == name@[k]);
                }
                lemma_last_separator(prefix, i as int);
                assert(prefix.subrange(i + 1, prefix.len() as int) =~= token@);
                assert(prefix.subrange(0, i as int) =~= name@.subrange(0, i as int));
                assert(before + (token@ + seq![separator()] + reverse_name(
                    name@.subrange(0, i as int),
                )) =~= out@ + reverse_name(name@.subrange(0, i as int)));
            }
            end = i;
        }
    }
    let token: &str = name.substring_char(0, end);
    proof {
        let prefix = name@.subrange(0, end as int);
        assert forall|k: int| -1 < k < prefix.len() implies prefix[k] != separator() by {
            assert(prefix[k] == name@[k]);
        }
        lemma_last_separator(prefix, -1);
        assert(reverse_name(prefix) == prefix);
    }
    out.append(token);
    out
}

/// A market: `asset_a` is traded, and priced in `asset_b`.
#[derive(Clone, Copy, Debug, PartialEq, Eq, Structural)]
pub struct Market {
    pub asset_a: AssetOfPrecision,
    pub asset_b: AssetOfPrecision,
}

impl Market {
    /// The market named `"{asset_a}_{asset_b}"`.
    pub fn new(asset_a: AssetOfPrecision, asset_b: AssetOfPrecision) -> (r: Market)
        ensures
            r == (Market { asset_a, asset_b }),
    {
        Market { asset_a, asset_b }
    }

    /// The market's name: the names of its two assets with the separator
    /// between them.
    pub open spec fn spec_market_name(&self) -> Seq<char> {
        pair_name(self.asset_a.asset.spec_name(), self.asset_b.asset.spec_name())
    }

    /// The market's name.
    pub fn market_name(&self) -> (r: String)
        ensures
            r@ == self.spec_market_name(),
    {
        proof {
            reveal_strlit("_");
        }
        let mut name: String = String::from_str(self.asset_a.asset.name());
        name.append("_");
        name.append(self.asset_b.asset.name());
        name
    }

    /// The same market seen from the other side: its two assets exchanged.
    pub open spec fn spec_invert(&self) -> Market {
        Market { asset_a: self.asset_b, asset_b: self.asset_a }
    }

    /// The same market seen from the other side: what was traded is now what
    /// is paid with.
    #[verifier::when_used_as_spec(spec_invert)]
    pub fn invert(&self) -> (r: Market)
        ensures
            r == self.spec_invert(),
    {
        Market { asset_a: self.asset_b, asset_b: self.asset_a }
    }

    /// The blockchains that the market touches: that of `asset_a`, and that
    /// of `asset_b` where it is another.
    pub open spec fn spec_blockchains(&self) -> Seq<Blockchain> {
        if self.asset_a.asset.spec_blockchain() == self.asset_b.asset.spec_blockchain() {
            seq![self.asset_a.asset.spec_blockchain()]
        } else {
            seq![self.asset_a.asset.spec_blockchain(), self.asset_b.asset.spec_blockchain()]
        }
    }

    /// The blockchains that the market touches, each once.
    pub fn blockchains(&self) -> (r: Vec<Blockchain>)
        ensures
            r@ == self.spec_blockchains(),
    {
        let chain_a: Blockchain = self.asset_a.asset.blockchain();
        let chain_b: Blockchain = self.asset_b.asset.blockchain();
        let mut chains: Vec<Blockchain> = Vec::new();
        chains.push(chain_a);
        if chain_a != chain_b {
            chains.push(chain_b);
        }
        assert(chains@ =~= self.spec_blockchains());
        chains
    }

    /// Inverting a market twice gives the market back, and the name of the
    /// inverted market is the market's name reversed.
    pub proof fn lemma_invert(self)
        ensures
            self.spec_invert().spec_invert() == self,
            self.spec_invert().asset_a == self.asset_b,
            self.spec_invert().asset_b == self.asset_a,
            reverse_name(self.spec_market_name()) == self.spec_invert().spec_market_name(),
            reverse_name(self.spec_invert().spec_market_name()) == self.spec_market_name(),
    {
        self.asset_a.asset.lemma_name_is_plain();
        self.asset_b.asset.lemma_name_is_plain();
        lemma_reverse_pair_name(self.asset_a.asset.spec_name(), self.asset_b.asset.spec_name());
        lemma_reverse_pair_name(self.asset_b.asset.spec_name(), self.asset_a.asset.spec_name());
    }

    /// Two markets with the same name trade the same two assets.
    pub proof fn lemma_name_tells_assets(self, other: Market)
        requires
            self.spec_market_name() == other.spec_market_name(),
        ensures
            self.asset_a.asset == other.asset_a.asset,
            self.asset_b.asset == other.asset_b.asset,
    {
        self.asset_a.asset.lemma_name_is_plain();
        other.asset_a.asset.lemma_name_is_plain();
        lemma_pair_name_injective(
            self.asset_a.asset.spec_name(),
            self.asset_b.asset.spec_name(),
            other.asset_a.asset.spec_name(),
            other.asset_b.asset.spec_name(),
        );
        self.asset_a.asset.lemma_name_is_injective(other.asset_a.asset);
        self.asset_b.asset.lemma_name_is_injective(other.asset_b.asset);
    }
}

} // verus!

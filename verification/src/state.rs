//! The state of a session: the markets that trade, the nonce pools of the
//! assets, and the keys of the signer.
//!
//! Reading takes the state by shared reference, changing it by exclusive
//! reference, so that no pool changes under a reader.

use vstd::prelude::*;
use vstd::string::*;
use crate::errors::ProtocolError;
use crate::types::asset::Asset;
use crate::types::keys::SignerKeys;
use crate::types::market::{lemma_reverse_name_twice, reverse_market_name, reverse_name, Market};

verus! {

/// The nonces that may currently be used for an asset.
#[derive(Debug, PartialEq)]
pub struct NoncePool {
    pub asset: Asset,
    pub nonces: Vec<u32>,
}

/// The state that order constructions read.
#[derive(Debug, PartialEq)]
pub struct State {
    /// The markets that trade, each found under its name.
    pub markets: Vec<Market>,
    /// The nonce pools, where they have been fetched.
    pub asset_nonces: Option<Vec<NoncePool>>,
    /// The keys of the signer, where the session has one.
    pub signer: Option<SignerKeys>,
}

/// The first of `markets` that is named `name`.
pub open spec fn find_market(markets: Seq<Market>, name: Seq<char>) -> Option<Market>
    decreases markets.len(),
{
    if markets.len() == 0 {
        None
    } else if markets[0].spec_market_name() == name {
        Some(markets[0])
    } else {
        find_market(markets.drop_first(), name)
    }
}

/// The market that `name` asks for: the market of that name, or else the
/// market of the reversed name, inverted.
pub open spec fn resolve_market_spec(markets: Seq<Market>, name: Seq<char>) -> Result<
    Market,
    ProtocolError,
> {
    match find_market(markets, name) {
        Some(market) => Ok(market),
        None => match find_market(markets, reverse_name(name)) {
            Some(market) => Ok(market.spec_invert()),
            None => Err(ProtocolError::UnknownMarket),
        },
    }
}

/// The nonces of the first of `pools` that belongs to `asset`.
pub open spec fn find_pool(pools: Seq<NoncePool>, asset: Asset) -> Option<Seq<u32>>
    decreases pools.len(),
{
    if pools.len() == 0 {
        None
    } else if pools[0].asset == asset {
        Some(pools[0].nonces@)
    } else {
        find_pool(pools.drop_first(), asset)
    }
}

/// A market that is found is one of the markets, and has the name that was
/// looked for.
pub proof fn lemma_find_market(markets: Seq<Market>, name: Seq<char>)
    ensures
        match find_market(markets, name) {
            Some(market) => markets.contains(market) && market.spec_market_name() == name,
            None => forall|i: int|
                0 <= i < markets.len() ==> (#[trigger] markets[i]).spec_market_name() != name,
        },
    decreases markets.len(),
{
    if markets.len() > 0 {
        let rest = markets.drop_first();
        lemma_find_market(rest, name);
        if markets[0].spec_market_name() == name {
            assert(markets.contains(markets[0]));
        } else {
            match find_market(rest, name) {
                Some(market) => {
                    let j = choose|j: int| 0 <= j < rest.len() && rest[j] == market;
                    assert(markets[j + 1] == market);
                },
                None => {
                    assert forall|i: int| 0 <= i < markets.len() implies (
                    #[trigger] markets[i]).spec_market_name() != name by {
                        if i > 0 {
                            assert(rest[i - 1] == markets[i]);
                        }
                    }
                },
            }
        }
    }
}

/// Resolution is symmetric. Let a market be listed under its name, and let
/// no market be listed under the reversed name. Then the market's own name
/// resolves to the market, the reversed name resolves to the inverted
/// market, and the two results have the same assets with source and
/// destination exchanged.
pub proof fn lemma_resolution_is_symmetric(markets: Seq<Market>, market: Market)
    requires
        find_market(markets, market.spec_market_name()) == Some(market),
        find_market(markets, market.spec_invert().spec_market_name()) is None,
    ensures
        resolve_market_spec(markets, market.spec_market_name()) == Ok::<Market, ProtocolError>(
            market,
        ),
        resolve_market_spec(markets, market.spec_invert().spec_market_name()) == Ok::<
            Market,
            ProtocolError,
        >(market.spec_invert()),
        market.spec_invert().asset_a == market.asset_b,
        market.spec_invert().asset_b == market.asset_a,
{
    market.lemma_invert();
}

/// A name resolves only to a market that is, or whose inversion is, one of
/// the listed markets.
pub proof fn lemma_resolved_market_is_listed(markets: Seq<Market>, name: Seq<char>)
    ensures
        match resolve_market_spec(markets, name) {
            Ok(market) => markets.contains(market) || markets.contains(market.spec_invert()),
            Err(e) => e == ProtocolError::UnknownMarket,
        },
{
    lemma_find_market(markets, name);
    lemma_find_market(markets, reverse_name(name));
    match find_market(markets, name) {
        Some(market) => {},
        None => match find_market(markets, reverse_name(name)) {
            Some(market) => {
                market.lemma_invert();
            },
            None => {},
        },
    }
}

/// A market that a name resolves to carries that name: whether it was found
/// under the name or under the reversed name, the request is built for the
/// market that was asked for.
pub proof fn lemma_resolved_market_has_the_name(markets: Seq<Market>, name: Seq<char>)
    ensures
        resolve_market_spec(markets, name) matches Ok(market) ==> market.spec_market_name()
            == name,
{
    lemma_find_market(markets, name);
    lemma_find_market(markets, reverse_name(name));
    match find_market(markets, name) {
        Some(market) => {},
        None => match find_market(markets, reverse_name(name)) {
            Some(market) => {
                market.lemma_invert();
                lemma_reverse_name_twice(name);
            },
            None => {},
        },
    }
}

impl State {
    /// A state with the given markets, without nonce pools and signer.
    pub fn new(markets: Vec<Market>) -> (r: State)
        ensures
            r.markets == markets,
            r.asset_nonces is None,
            r.signer is None,
    {
        State { markets, asset_nonces: None, signer: None }
    }

    /// The market that is listed under `name`.
    pub fn get_market(&self, name: &str) -> (r: Result<Market, ProtocolError>)
        ensures
            r == match find_market(self.markets@, name@) {
                Some(market) => Ok::<Market, ProtocolError>(market),
                None => Err(ProtocolError::UnknownMarket),
            },
    {
        let wanted: String = String::from_str(name);
        let n: usize = self.markets.len();
        let mut i: usize = 0;
        proof {
            assert(self.markets@.subrange(0, n as int) =~= self.markets@);
        }
        while i < n
            invariant
                i <= n,
                n == self.markets@.len(),
                wanted@ == name@,
                find_market(self.markets@, name@) == find_market(
                    self.markets@.subrange(i as int, n as int),
                    name@,
                ),
            decreases n - i,
        {
            let market: Market = self.markets[i];
            let candidate: String = market.market_name();
            proof {
                let rest = self.markets@.subrange(i as int, n as int);
                assert(rest[0] == market);
                assert(rest.drop_first() =~= self.markets@.subrange(i + 1, n as int));
            }
            if candidate == wanted {
                return Ok(market);
            }
            i = i + 1;
        }
        Err(ProtocolError::UnknownMarket)
    }

    /// The market that `name` asks for. The name is looked up as it is; if no
    /// market is listed under it, its parts are reversed and the market under
    /// the reversed name, if there is one, is returned inverted. So a caller
    /// may ask for `B_A` where `A_B` is listed.
    pub fn resolve_market(&self, name: &str) -> (r: Result<Market, ProtocolError>)
        ensures
            r == resolve_market_spec(self.markets@, name@),
    {
        match self.get_market(name) {
            Ok(market) => Ok(market),
            Err(_) => {
                let reversed: String = reverse_market_name(name);
                match self.get_market(reversed.as_str()) {
                    Ok(market) => Ok(market.invert()),
                    Err(e) => Err(e),
                }
            },
        }
    }

    /// The nonce pool of `asset`, as a sequence.
    pub open spec fn spec_asset_nonce_pool(&self, asset: Asset) -> Option<Seq<u32>> {
        match self.asset_nonces {
            Some(pools) => find_pool(pools@, asset),
            None => None,
        }
    }

    /// The nonce pool of `asset`. It is missing where no pools were fetched
    /// or none is registered for the asset.
    pub fn asset_nonce_pool(&self, asset: Asset) -> (r: Result<&Vec<u32>, ProtocolError>)
        ensures
            match r {
                Ok(pool) => self.spec_asset_nonce_pool(asset) == Some(pool@),
                Err(e) => e == ProtocolError::MissingNoncePool && self.spec_asset_nonce_pool(asset)
                    is None,
            },
    {
        match &self.asset_nonces {
            None => Err(ProtocolError::MissingNoncePool),
            Some(pools) => {
                let n: usize = pools.len();
                let mut i: usize = 0;
                proof {
                    assert(pools@.subrange(0, n as int) =~= pools@);
                }
                while i < n
                    invariant
                        i <= n,
                        n == pools@.len(),
                        self.asset_nonces == Some(*pools),
                        find_pool(pools@, asset) == find_pool(
                            pools@.subrange(i as int, n as int),
                            asset,
                        ),
                    decreases n - i,
                {
                    proof {
                        let rest = pools@.subrange(i as int, n as int);
                        assert(rest[0] == pools@[i as int]);
                        assert(rest.drop_first() =~= pools@.subrange(i + 1, n as int));
                    }
                    if pools[i].asset == asset {
                        return Ok(&pools[i].nonces);
                    }
                    i = i + 1;
                }
                Err(ProtocolError::MissingNoncePool)
            },
        }
    }

    /// The keys of the session's signer.
    pub fn signer(&self) -> (r: Result<&SignerKeys, ProtocolError>)
        ensures
            match r {
                Ok(keys) => self.signer == Some(*keys),
                Err(e) => e == ProtocolError::SigningUnavailable && self.signer is None,
            },
    {
        match &self.signer {
            Some(keys) => Ok(keys),
            None => Err(ProtocolError::SigningUnavailable),
        }
    }

    /// Registers `nonces` as the pool of `asset`, in front of any pool that
    /// the asset had. The pools of the other assets stay as they are.
    pub fn set_asset_nonces(&mut self, asset: Asset, nonces: Vec<u32>)
        ensures
            final(self).markets == old(self).markets,
            final(self).signer == old(self).signer,
            final(self).spec_asset_nonce_pool(asset) == Some(nonces@),
            forall|other: Asset|
                other != asset ==> final(self).spec_asset_nonce_pool(other) == old(
                    self,
                ).spec_asset_nonce_pool(other),
    {
        let ghost earlier = *self;
        let mut pools: Vec<NoncePool> = match self.asset_nonces.take() {
            Some(pools) => pools,
            None => Vec::new(),
        };
        let ghost before = pools@;
        pools.insert(0, NoncePool { asset, nonces });
        self.asset_nonces = Some(pools);
        proof {
            assert(pools@.drop_first() =~= before);
            assert(find_pool(before, asset) == find_pool(before, asset));
            assert forall|other: Asset| other != asset implies self.spec_asset_nonce_pool(other)
                == earlier.spec_asset_nonce_pool(other) by {
                assert(find_pool(pools@, other) == find_pool(before, other));
                if earlier.asset_nonces is None {
                    assert(before.len() == 0);
                }
            }
        }
    }
}

} // verus!

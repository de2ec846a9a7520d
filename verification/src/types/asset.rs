//! Blockchains and the assets that settle on them.

use vstd::prelude::*;
use vstd::string::*;

verus! {

/// A blockchain on which trades settle.
#[derive(Clone, Copy, Debug, PartialEq, Eq, Structural)]
pub enum Blockchain {
    Ethereum,
    Bitcoin,
    NEO,
}

impl Blockchain {
    /// The blockchain as payloads spell it.
    pub open spec fn spec_name(&self) -> Seq<char> {
        match self {
            Blockchain::Ethereum => "ETH"@,
            Blockchain::Bitcoin => "BTC"@,
            Blockchain::NEO => "NEO"@,
        }
    }

    /// The blockchain as payloads spell it.
    pub fn name(&self) -> (r: &'static str)
        ensures
            r@ == self.spec_name(),
    {
        match self {
            Blockchain::Ethereum => "ETH",
            Blockchain::Bitcoin => "BTC",
            Blockchain::NEO => "NEO",
        }
    }
}

/// An asset that the exchange trades. Each settles on one blockchain.
#[derive(Clone, Copy, Debug, PartialEq, Eq, Structural)]
pub enum Asset {
    ETH,
    BAT,
    USDC,
    USDT,
    BTC,
    NEO,
    GAS,
    NNN,
}

/// The character that parts the two assets in a market's name.
pub open spec fn separator() -> char {
    '_'
}

/// No character of `s` is the separator of market names.
pub open spec fn has_no_separator(s: Seq<char>) -> bool {
    forall|i: int| 0 <= i < s.len() ==> #[trigger] s[i] != separator()
}

impl Asset {
    /// The blockchain on which this asset settles.
    pub open spec fn spec_blockchain(&self) -> Blockchain {
        match self {
            Asset::ETH => Blockchain::Ethereum,
            Asset::BAT => Blockchain::Ethereum,
            Asset::USDC => Blockchain::Ethereum,
            Asset::USDT => Blockchain::Ethereum,
            Asset::BTC => Blockchain::Bitcoin,
            Asset::NEO => Blockchain::NEO,
            Asset::GAS => Blockchain::NEO,
            Asset::NNN => Blockchain::NEO,
        }
    }

    /// The blockchain on which this asset settles.
    #[verifier::when_used_as_spec(spec_blockchain)]
    pub fn blockchain(&self) -> (r: Blockchain)
        ensures
            r == self.spec_blockchain(),
    {
        match self {
            Asset::ETH => Blockchain::Ethereum,
            Asset::BAT => Blockchain::Ethereum,
            Asset::USDC => Blockchain::Ethereum,
            Asset::USDT => Blockchain::Ethereum,
            Asset::BTC => Blockchain::Bitcoin,
            Asset::NEO => Blockchain::NEO,
            Asset::GAS => Blockchain::NEO,
            Asset::NNN => Blockchain::NEO,
        }
    }

    /// The asset's name as markets and payloads spell it.
    pub open spec fn spec_name(&self) -> Seq<char> {
        match self {
            Asset::ETH => "ETH"@,
            Asset::BAT => "BAT"@,
            Asset::USDC => "USDC"@,
            Asset::USDT => "USDT"@,
            Asset::BTC => "BTC"@,
            Asset::NEO => "NEO"@,
            Asset::GAS => "GAS"@,
            Asset::NNN => "NNN"@,
        }
    }

    /// The asset's name as markets and payloads spell it.
    pub fn name(&self) -> (r: &'static str)
        ensures
            r@ == self.spec_name(),
    {
        match self {
            Asset::ETH => "ETH",
            Asset::BAT => "BAT",
            Asset::USDC => "USDC",
            Asset::USDT => "USDT",
            Asset::BTC => "BTC",
            Asset::NEO => "NEO",
            Asset::GAS => "GAS",
            Asset::NNN => "NNN",
        }
    }

    /// A name is not empty and holds no separator, so that a market's name
    /// splits into its two assets in one way only.
    pub proof fn lemma_name_is_plain(self)
        ensures
            self.spec_name().len() > 0,
            has_no_separator(self.spec_name()),
    {
        reveal_strlit("ETH");
        reveal_strlit("BAT");
        reveal_strlit("USDC");
        reveal_strlit("USDT");
        reveal_strlit("BTC");
        reveal_strlit("NEO");
        reveal_strlit("GAS");
        reveal_strlit("NNN");
    }

    /// Two assets with the same name are the same asset.
    pub proof fn lemma_name_is_injective(self, other: Asset)
        requires
            self.spec_name() == other.spec_name(),
        ensures
            self == other,
    {
        reveal_strlit("ETH");
        reveal_strlit("BAT");
        reveal_strlit("USDC");
        reveal_strlit("USDT");
        reveal_strlit("BTC");
        reveal_strlit("NEO");
        reveal_strlit("GAS");
        reveal_strlit("NNN");
        let a = self.spec_name();
        let b = other.spec_name();
        assert(a.len() == b.len());
        assert(a[0] == b[0]);
        assert(a[1] == b[1]);
        assert(a[2] == b[2]);
        if a.len() == 4 {
            assert(a[3] == b[3]);
        }
    }
}

/// An asset together with the number of decimal places in which the exchange
/// counts it.
#[derive(Clone, Copy, Debug, PartialEq, Eq, Structural)]
pub struct AssetOfPrecision {
    pub asset: Asset,
    pub precision: u8,
}

} // verus!

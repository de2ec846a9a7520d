//! Public keys and addresses of any blockchain, and the keys of a session.

use vstd::prelude::*;
use crate::errors::ProtocolError;
use crate::types::asset::Blockchain;
use crate::types::blockchain::{btc, eth, neo};

verus! {

/// An address on one of the blockchains.
#[derive(Debug, PartialEq)]
pub enum Address {
    Ethereum(eth::Address),
    Bitcoin(btc::Address),
    NEO(neo::Address),
}

impl Clone for Address {
    fn clone(&self) -> (r: Self)
        ensures
            r == *self,
    {
        match self {
            Address::Ethereum(address) => Address::Ethereum(address.clone()),
            Address::Bitcoin(address) => Address::Bitcoin(address.clone()),
            Address::NEO(address) => Address::NEO(address.clone()),
        }
    }
}

impl Address {
    /// What `to_ethereum` returns.
    pub open spec fn spec_to_ethereum(&self) -> Result<eth::Address, ProtocolError> {
        match self {
            Address::Ethereum(address) => Ok(*address),
            _ => Err(ProtocolError::KeyConversionFailure),
        }
    }

    /// The address as an Ethereum address. An address of another blockchain
    /// is refused.
    pub fn to_ethereum(&self) -> (r: Result<eth::Address, ProtocolError>)
        ensures
            r == self.spec_to_ethereum(),
    {
        match self {
            Address::Ethereum(address) => Ok(address.clone()),
            _ => Err(ProtocolError::KeyConversionFailure),
        }
    }
}

/// A public key on one of the blockchains.
#[derive(Debug, PartialEq)]
pub enum PublicKey {
    Ethereum(eth::PublicKey),
    Bitcoin(btc::PublicKey),
    NEO(neo::PublicKey),
}

impl Clone for PublicKey {
    fn clone(&self) -> (r: Self)
        ensures
            r == *self,
    {
        match self {
            PublicKey::Ethereum(key) => PublicKey::Ethereum(key.clone()),
            PublicKey::Bitcoin(key) => PublicKey::Bitcoin(key.clone()),
            PublicKey::NEO(key) => PublicKey::NEO(key.clone()),
        }
    }
}

impl PublicKey {
    /// The blockchain that the key belongs to.
    pub open spec fn spec_blockchain(&self) -> Blockchain {
        match self {
            PublicKey::Ethereum(_) => Blockchain::Ethereum,
            PublicKey::Bitcoin(_) => Blockchain::Bitcoin,
            PublicKey::NEO(_) => Blockchain::NEO,
        }
    }

    /// The blockchain that the key belongs to.
    #[verifier::when_used_as_spec(spec_blockchain)]
    pub fn blockchain(&self) -> (r: Blockchain)
        ensures
            r == self.spec_blockchain(),
    {
        match self {
            PublicKey::Ethereum(_) => Blockchain::Ethereum,
            PublicKey::Bitcoin(_) => Blockchain::Bitcoin,
            PublicKey::NEO(_) => Blockchain::NEO,
        }
    }

    /// What `to_address` returns.
    pub open spec fn spec_to_address(&self) -> Result<Address, ProtocolError> {
        match self {
            PublicKey::Ethereum(key) => Ok(Address::Ethereum(key.spec_address())),
            PublicKey::Bitcoin(_) => Err(ProtocolError::KeyConversionFailure),
            PublicKey::NEO(key) => Ok(Address::NEO(key.spec_address())),
        }
    }

    /// The address that belongs to the key. A Bitcoin key has none.
    pub fn to_address(&self) -> (r: Result<Address, ProtocolError>)
        ensures
            r == self.spec_to_address(),
    {
        match self {
            PublicKey::Ethereum(key) => match key.to_address() {
                Ok(address) => Ok(Address::Ethereum(address)),
                Err(e) => Err(e),
            },
            PublicKey::Bitcoin(key) => match key.to_address() {
                Ok(address) => Ok(Address::Bitcoin(address)),
                Err(e) => Err(e),
            },
            PublicKey::NEO(key) => match key.to_address() {
                Ok(address) => Ok(Address::NEO(address)),
                Err(e) => Err(e),
            },
        }
    }

    /// The key as hexadecimal text, as a sequence of characters.
    pub open spec fn spec_hex(&self) -> Seq<char> {
        match self {
            PublicKey::Ethereum(key) => key.spec_hex(),
            PublicKey::Bitcoin(key) => key@,
            PublicKey::NEO(key) => key.spec_hex(),
        }
    }

    /// The key as hexadecimal text.
    pub fn to_hex(&self) -> (r: String)
        ensures
            r@ == self.spec_hex(),
    {
        match self {
            PublicKey::Ethereum(key) => key.to_hex(),
            PublicKey::Bitcoin(key) => key.to_hex(),
            PublicKey::NEO(key) => key.to_hex(),
        }
    }

    /// What `to_neo` returns.
    pub open spec fn spec_to_neo(&self) -> Result<neo::PublicKey, ProtocolError> {
        match self {
            PublicKey::NEO(key) => Ok(*key),
            _ => Err(ProtocolError::KeyConversionFailure),
        }
    }

    /// The key as a NEO key. A key of another curve is refused.
    pub fn to_neo(&self) -> (r: Result<neo::PublicKey, ProtocolError>)
        ensures
            r == self.spec_to_neo(),
    {
        match self {
            PublicKey::NEO(key) => Ok(key.clone()),
            _ => Err(ProtocolError::KeyConversionFailure),
        }
    }
}

/// The public part of a session's signing capability: the child keys that
/// the session holds, one for each blockchain it can sign for. Signing itself
/// happens outside this library, which says what is to be signed and takes
/// the signatures back.
#[derive(Debug, PartialEq)]
pub struct SignerKeys {
    pub ethereum: Option<eth::PublicKey>,
    pub bitcoin: Option<btc::PublicKey>,
    pub neo: Option<neo::PublicKey>,
}

impl Clone for SignerKeys {
    fn clone(&self) -> (r: Self)
        ensures
            r == *self,
    {
        let ethereum: Option<eth::PublicKey> = match &self.ethereum {
            Some(key) => Some(key.clone()),
            None => None,
        };
        let bitcoin: Option<btc::PublicKey> = match &self.bitcoin {
            Some(key) => Some(key.clone()),
            None => None,
        };
        let neo: Option<neo::PublicKey> = match &self.neo {
            Some(key) => Some(key.clone()),
            None => None,
        };
        SignerKeys { ethereum, bitcoin, neo }
    }
}

impl SignerKeys {
    /// What `child_public_key` returns.
    pub open spec fn spec_child_public_key(&self, chain: Blockchain) -> Result<
        PublicKey,
        ProtocolError,
    > {
        match chain {
            Blockchain::Ethereum => match self.ethereum {
                Some(key) => Ok(PublicKey::Ethereum(key)),
                None => Err(ProtocolError::SigningUnavailable),
            },
            Blockchain::Bitcoin => match self.bitcoin {
                Some(key) => Ok(PublicKey::Bitcoin(key)),
                None => Err(ProtocolError::SigningUnavailable),
            },
            Blockchain::NEO => match self.neo {
                Some(key) => Ok(PublicKey::NEO(key)),
                None => Err(ProtocolError::SigningUnavailable),
            },
        }
    }

    /// The session's public key on `chain`. Where the session holds no key
    /// material for that blockchain, signing is unavailable.
    pub fn child_public_key(&self, chain: Blockchain) -> (r: Result<PublicKey, ProtocolError>)
        ensures
            r == self.spec_child_public_key(chain),
            r is Ok ==> r->Ok_0.spec_blockchain() == chain,
    {
        match chain {
            Blockchain::Ethereum => match &self.ethereum {
                Some(key) => Ok(PublicKey::Ethereum(key.clone())),
                None => Err(ProtocolError::SigningUnavailable),
            },
            Blockchain::Bitcoin => match &self.bitcoin {
                Some(key) => Ok(PublicKey::Bitcoin(key.clone())),
                None => Err(ProtocolError::SigningUnavailable),
            },
            Blockchain::NEO => match &self.neo {
                Some(key) => Ok(PublicKey::NEO(key.clone())),
                None => Err(ProtocolError::SigningUnavailable),
            },
        }
    }
}

} // verus!

//! Signatures as payloads carry them. The library signs nothing itself: it
//! says what is to be signed and takes the signatures back as values.

use vstd::prelude::*;
use vstd::string::*;
use crate::protocol::place_order::blockchain::FillOrder;
use crate::types::asset::Blockchain;
use crate::types::keys::PublicKey;

verus! {

/// The signature over a request's canonical string.
#[derive(Debug, PartialEq)]
pub struct RequestPayloadSignature {
    pub signed_digest: String,
    pub public_key: String,
}

impl Clone for RequestPayloadSignature {
    fn clone(&self) -> (r: Self)
        ensures
            r == *self,
    {
        RequestPayloadSignature {
            signed_digest: self.signed_digest.clone(),
            public_key: self.public_key.clone(),
        }
    }
}

impl RequestPayloadSignature {
    /// Whether the signature is the one that stands in a request before it
    /// is signed.
    pub open spec fn is_empty(&self) -> bool {
        self.signed_digest@.len() == 0 && self.public_key@.len() == 0
    }

    /// The signature that stands in a request before it is signed.
    pub fn empty() -> (r: Self)
        ensures
            r.is_empty(),
    {
        RequestPayloadSignature { signed_digest: String::new(), public_key: String::new() }
    }
}

/// What the signer of a blockchain returns for one settlement structure.
#[derive(Debug, PartialEq)]
pub struct ChainSignature {
    pub signature: String,
    pub r: String,
}

impl Clone for ChainSignature {
    fn clone(&self) -> (r: Self)
        ensures
            r == *self,
    {
        ChainSignature { signature: self.signature.clone(), r: self.r.clone() }
    }
}

/// The signature of one settlement structure as a payload carries it.
#[derive(Debug, PartialEq)]
pub struct BlockchainSignature {
    pub blockchain: Blockchain,
    pub nonce_from: i64,
    pub nonce_to: i64,
    pub public_key: String,
    pub signature: String,
    pub r: String,
}

impl Clone for BlockchainSignature {
    fn clone(&self) -> (r: Self)
        ensures
            r == *self,
    {
        BlockchainSignature {
            blockchain: self.blockchain,
            nonce_from: self.nonce_from,
            nonce_to: self.nonce_to,
            public_key: self.public_key.clone(),
            signature: self.signature.clone(),
            r: self.r.clone(),
        }
    }
}

impl BlockchainSignature {
    /// Whether this is the entry for `order`, signed with the key `key` as
    /// `signed` says: it names the order's blockchain, carries the order's
    /// two asset nonces as numbers, the key as hexadecimal text, and the
    /// signature as it was given.
    pub open spec fn is_for(&self, order: FillOrder, key: PublicKey, signed: ChainSignature) -> bool {
        &&& self.blockchain == order.spec_blockchain()
        &&& self.nonce_from == order.spec_nonce_from().spec_wire_value()
        &&& self.nonce_to == order.spec_nonce_to().spec_wire_value()
        &&& self.public_key@ == key.spec_hex()
        &&& self.signature@ == signed.signature@
        &&& self.r@ == signed.r@
    }
}

impl FillOrder {
    /// The entry of a payload that carries the signature of this structure.
    pub fn to_blockchain_signature(&self, key: &PublicKey, signed: &ChainSignature) -> (r:
        BlockchainSignature)
        ensures
            r.is_for(*self, *key, *signed),
    {
        BlockchainSignature {
            blockchain: self.blockchain(),
            nonce_from: self.nonce_from().wire_value(),
            nonce_to: self.nonce_to().wire_value(),
            public_key: key.to_hex(),
            signature: signed.signature.clone(),
            r: signed.r.clone(),
        }
    }
}

} // verus!

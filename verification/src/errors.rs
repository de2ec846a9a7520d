//! The failures an order construction can end with.

use vstd::prelude::*;

verus! {

/// Why the construction of a request stopped. Nothing is retried inside the
/// library: every failure is handed to the caller as one of these kinds.
#[derive(Clone, Copy, Debug, PartialEq, Eq, Structural)]
pub enum ProtocolError {
    /// The market name resolves in neither direction.
    UnknownMarket,
    /// The amount cannot be applied to the resolved market side.
    InvalidAmount,
    /// No nonce pool is registered for an asset.
    MissingNoncePool,
    /// The public key cannot be used on the blockchain that asks for it.
    KeyConversionFailure,
    /// The payload has no canonical serialization.
    SerializationFailure,
    /// The signing capability lacks the key material that is asked for.
    SigningUnavailable,
}

impl ProtocolError {
    /// The text of the message, as a sequence of characters.
    pub open spec fn spec_message(&self) -> Seq<char> {
        match self {
            ProtocolError::UnknownMarket => "Market does not exist"@,
            ProtocolError::InvalidAmount => "Amount cannot be applied to the market"@,
            ProtocolError::MissingNoncePool => "Asset nonce does not exist"@,
            ProtocolError::KeyConversionFailure => "Could not convert public key"@,
            ProtocolError::SerializationFailure => "Failed to serialize order into canonical string"@,
            ProtocolError::SigningUnavailable => "Signer is not initiated"@,
        }
    }

    /// A message for the user, one per kind of failure.
    pub fn message(&self) -> (r: &'static str)
        ensures
            r@ == self.spec_message(),
    {
        match self {
            ProtocolError::UnknownMarket => "Market does not exist",
            ProtocolError::InvalidAmount => "Amount cannot be applied to the market",
            ProtocolError::MissingNoncePool => "Asset nonce does not exist",
            ProtocolError::KeyConversionFailure => "Could not convert public key",
            ProtocolError::SerializationFailure => "Failed to serialize order into canonical string",
            ProtocolError::SigningUnavailable => "Signer is not initiated",
        }
    }
}

} // verus!

//! Bitcoin specific types shared across protocol requests.

use vstd::prelude::*;
use vstd::string::*;
use nash_mpc::curves::secp256_k1_rust::Secp256k1Point;
use nash_mpc::curves::traits::ECPoint;
use crate::errors::ProtocolError;

verus! {

/// The text in which `Secp256k1Point::to_hex` writes the point that
/// `Secp256k1Point::from_hex` reads from the text `s`, and nothing where it
/// reads no point from `s`.
pub uninterp spec fn secp256k1_point_hex(s: Seq<char>) -> Option<Seq<char>>;

/// Reads a point of the curve secp256k1 with `Secp256k1Point::from_hex` and
/// writes it back with `ECPoint::to_hex`. The contract claims only that the
/// outcome is the same whenever the text is the same: it gives that outcome
/// a name.
#[verifier::external_body]
pub(crate) fn secp256k1_point_from_hex(s: &str) -> (r: Option<String>)
    ensures
        match r {
            Some(hex) => secp256k1_point_hex(s@) == Some(hex@),
            None => secp256k1_point_hex(s@) is None,
        },
{
    match Secp256k1Point::from_hex(s) {
        Ok(point) => Some(point.to_hex()),
        Err(_) => None,
    }
}

/// Placeholder for a Bitcoin address: the text is kept as it is given.
#[derive(Debug, PartialEq)]
pub struct Address {
    pub(crate) inner: String,
}

impl Clone for Address {
    fn clone(&self) -> (r: Self)
        ensures
            r == *self,
    {
        Address { inner: self.inner.clone() }
    }
}

impl View for Address {
    type V = Seq<char>;

    closed spec fn view(&self) -> Seq<char> {
        self.inner@
    }
}

impl Address {
    /// The address that the text `s` spells. No text is refused.
    pub fn new(s: &str) -> (r: Result<Self, ProtocolError>)
        ensures
            r is Ok,
            r->Ok_0@ == s@,
    {
        Ok(Self { inner: String::from_str(s) })
    }

    /// The text of the address.
    pub fn as_str(&self) -> (r: &str)
        ensures
            r@ == self@,
    {
        self.inner.as_str()
    }
}

/// A public key on the curve secp256k1, kept as the text in which the curve
/// library writes its point.
#[derive(Debug, PartialEq)]
pub struct PublicKey {
    pub(crate) hex: String,
}

impl Clone for PublicKey {
    fn clone(&self) -> (r: Self)
        ensures
            r == *self,
    {
        PublicKey { hex: self.hex.clone() }
    }
}

impl View for PublicKey {
    type V = Seq<char>;

    closed spec fn view(&self) -> Seq<char> {
        self.hex@
    }
}

impl PublicKey {
    /// The key that the hexadecimal text names. It is refused where the
    /// curve library reads no point from the text.
    pub fn new(hex_str: &str) -> (r: Result<Self, ProtocolError>)
        ensures
            match r {
                Ok(key) => secp256k1_point_hex(hex_str@) == Some(key@),
                Err(e) => e == ProtocolError::KeyConversionFailure && secp256k1_point_hex(
                    hex_str@,
                ) is None,
            },
    {
        match secp256k1_point_from_hex(hex_str) {
            Some(hex) => Ok(Self { hex }),
            None => Err(ProtocolError::KeyConversionFailure),
        }
    }

    /// No address is derived from a Bitcoin key.
    pub fn to_address(&self) -> (r: Result<Address, ProtocolError>)
        ensures
            r == Err::<Address, ProtocolError>(ProtocolError::KeyConversionFailure),
    {
        Err(ProtocolError::KeyConversionFailure)
    }

    /// The key as hexadecimal text.
    pub fn to_hex(&self) -> (r: String)
        ensures
            r@ == self@,
    {
        self.hex.clone()
    }
}

} // verus!

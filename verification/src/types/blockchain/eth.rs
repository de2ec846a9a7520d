//! Ethereum specific types shared across protocol requests.

use vstd::prelude::*;
use vstd::string::*;
use crate::errors::ProtocolError;
use crate::types::blockchain::btc::{secp256k1_point_from_hex, secp256k1_point_hex};

verus! {

/// Whether `c` is a hexadecimal digit.
pub open spec fn is_hex_digit(c: char) -> bool {
    ||| '0' <= c <= '9'
    ||| 'a' <= c <= 'f'
    ||| 'A' <= c <= 'F'
}

/// Whether `s` spells an Ethereum address: forty hexadecimal digits.
pub open spec fn is_address_text(s: Seq<char>) -> bool {
    &&& s.len() == 40
    &&& forall|i: int| 0 <= i < s.len() ==> is_hex_digit(#[trigger] s[i])
}

/// An Ethereum address: forty hexadecimal digits.
#[derive(Debug, PartialEq)]
pub struct Address {
    pub(crate) inner: String,
}

impl Clone for Address {
    fn clone(&self) -> (r: Self)
        ensures
            r == *self,
    {
        Address { inner: self.inner.clone() }
    }
}

impl View for Address {
    type V = Seq<char>;

    closed spec fn view(&self) -> Seq<char> {
        self.inner@
    }
}

impl Address {
    /// The address that the text `s` spells. It is refused unless it holds
    /// forty hexadecimal digits and nothing else.
    pub fn new(s: &str) -> (r: Result<Self, ProtocolError>)
        ensures
            match r {
                Ok(address) => is_address_text(s@) && address@ == s@,
                Err(e) => e == ProtocolError::KeyConversionFailure && !is_address_text(s@),
            },
    {
        let n: usize = s.unicode_len();
        if n != 40 {
            return Err(ProtocolError::KeyConversionFailure);
        }
        let mut i: usize = 0;
        while i < n
            invariant
                i <= n,
                n == s@.len(),
                forall|k: int| 0 <= k < i ==> is_hex_digit(#[trigger] s@[k]),
            decreases n - i,
        {
            let c: char = s.get_char(i);
            let hex: bool = ('0' <= c && c <= '9') || ('a' <= c && c <= 'f') || ('A' <= c && c
                <= 'F');
            if !hex {
                return Err(ProtocolError::KeyConversionFailure);
            }
            i = i + 1;
        }
        Ok(Self { inner: String::from_str(s) })
    }

    /// The text of the address.
    pub fn as_str(&self) -> (r: &str)
        ensures
            r@ == self@,
    {
        self.inner.as_str()
    }
}

/// A public key on the curve secp256k1 together with the address that
/// belongs to it.
#[derive(Debug, PartialEq)]
pub struct PublicKey {
    pub(crate) hex: String,
    pub(crate) address: Address,
}

impl Clone for PublicKey {
    fn clone(&self) -> (r: Self)
        ensures
            r == *self,
    {
        PublicKey { hex: self.hex.clone(), address: self.address.clone() }
    }
}

impl PublicKey {
    /// The key as hexadecimal text, as a sequence of characters.
    pub closed spec fn spec_hex(&self) -> Seq<char> {
        self.hex@
    }

    /// The address that belongs to the key.
    pub closed spec fn spec_address(&self) -> Address {
        self.address
    }

    /// The key that the hexadecimal text names, with its address. It is
    /// refused where the curve library reads no point from the text.
    pub fn new(hex_str: &str, address: Address) -> (r: Result<Self, ProtocolError>)
        ensures
            match r {
                Ok(key) => secp256k1_point_hex(hex_str@) == Some(key.spec_hex()) 
                    && key.spec_address() == address,
                Err(e) => e == ProtocolError::KeyConversionFailure && secp256k1_point_hex(
                    hex_str@,
                ) is None,
            },
    {
        match secp256k1_point_from_hex(hex_str) {
            Some(hex) => Ok(Self { hex, address }),
            None => Err(ProtocolError::KeyConversionFailure),
        }
    }

    /// The address that belongs to the key.
    pub fn to_address(&self) -> (r: Result<Address, ProtocolError>)
        ensures
            r == Ok::<Address, ProtocolError>(self.spec_address()),
    {
        Ok(self.address.clone())
    }

    /// The key as hexadecimal text.
    pub fn to_hex(&self) -> (r: String)
        ensures
            r@ == self.spec_hex(),
    {
        self.hex.clone()
    }
}

} // verus!

//! Nonces of assets and orders.

use vstd::prelude::*;

verus! {

/// What a payload carries in place of a nonce for an asset that settles on
/// another blockchain than the one the payload is signed for.
pub const CROSSCHAIN_NONCE: u32 = 0xffff_ffff;

/// A nonce: a number bound to an asset or an order, or the mark that the
/// asset settles on another chain than the one being signed for, so that no
/// number of its pool applies.
#[derive(Clone, Copy, Debug, PartialEq, Eq, Structural)]
pub enum Nonce {
    Value(u32),
    Crosschain,
}

impl Nonce {
    /// The number that stands for this nonce in a payload.
    pub open spec fn spec_wire_value(&self) -> i64 {
        match self {
            Nonce::Value(v) => *v as i64,
            Nonce::Crosschain => CROSSCHAIN_NONCE as i64,
        }
    }

    /// The number that stands for this nonce in a payload: the value itself,
    /// or the placeholder that the settlement contracts read as "crosschain".
    #[verifier::when_used_as_spec(spec_wire_value)]
    pub fn wire_value(&self) -> (r: i64)
        ensures
            r == self.spec_wire_value(),
            0 <= r <= 0xffff_ffff,
    {
        match self {
            Nonce::Value(v) => *v as i64,
            Nonce::Crosschain => CROSSCHAIN_NONCE as i64,
        }
    }
}

} // verus!

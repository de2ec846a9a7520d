//! The side of an order, how long it stands, and at which rate it trades.

use vstd::prelude::*;
use vstd::arithmetic::div_mod::lemma_div_denominator;
use crate::errors::ProtocolError;
use crate::types::amount::{pow10, lemma_pow10_monotone, Amount, AssetAmount};
use crate::types::asset::AssetOfPrecision;

verus! {

/// Whether the traded asset of the market is bought or sold.
#[derive(Clone, Copy, Debug, PartialEq, Eq, Structural)]
pub enum BuyOrSell {
    Buy,
    Sell,
}

impl BuyOrSell {
    /// The side as payloads spell it.
    pub open spec fn spec_name(&self) -> Seq<char> {
        match self {
            BuyOrSell::Buy => "BUY"@,
            BuyOrSell::Sell => "SELL"@,
        }
    }

    /// The side as payloads spell it.
    pub fn name(&self) -> (r: &'static str)
        ensures
            r@ == self.spec_name(),
    {
        match self {
            BuyOrSell::Buy => "BUY",
            BuyOrSell::Sell => "SELL",
        }
    }
}

/// How long an order stands in the book.
#[derive(Clone, Copy, Debug, PartialEq, Eq, Structural)]
pub enum OrderCancellationPolicy {
    /// The order is filled at once and in full, or not at all.
    FillOrKill,
    /// The order stands until it is cancelled.
    GoodTilCancelled,
    /// The order stands until the given time.
    GoodTilTime(i64),
    /// What cannot be filled at once is cancelled.
    ImmediateOrCancel,
}

impl OrderCancellationPolicy {
    /// The policy as payloads spell it.
    pub open spec fn spec_name(&self) -> Seq<char> {
        match self {
            OrderCancellationPolicy::FillOrKill => "FILL_OR_KILL"@,
            OrderCancellationPolicy::GoodTilCancelled => "GOOD_TIL_CANCELLED"@,
            OrderCancellationPolicy::GoodTilTime(_) => "GOOD_TIL_TIME"@,
            OrderCancellationPolicy::ImmediateOrCancel => "IMMEDIATE_OR_CANCEL"@,
        }
    }

    /// The policy as payloads spell it.
    pub fn name(&self) -> (r: &'static str)
        ensures
            r@ == self.spec_name(),
    {
        match self {
            OrderCancellationPolicy::FillOrKill => "FILL_OR_KILL",
            OrderCancellationPolicy::GoodTilCancelled => "GOOD_TIL_CANCELLED",
            OrderCancellationPolicy::GoodTilTime(_) => "GOOD_TIL_TIME",
            OrderCancellationPolicy::ImmediateOrCancel => "IMMEDIATE_OR_CANCEL",
        }
    }

    /// The time at which the order is cancelled, where the policy names one.
    pub open spec fn spec_cancel_at(&self) -> Option<i64> {
        match self {
            OrderCancellationPolicy::GoodTilTime(time) => Some(*time),
            _ => None,
        }
    }

    /// The time at which the order is cancelled: the time of a
    /// good-until-time policy, and none for every other policy.
    #[verifier::when_used_as_spec(spec_cancel_at)]
    pub fn cancel_at(&self) -> (r: Option<i64>)
        ensures
            r == self.spec_cancel_at(),
    {
        match self {
            OrderCancellationPolicy::GoodTilTime(time) => Some(*time),
            _ => None,
        }
    }
}

/// A rate of exchange: how much of the destination asset one unit of the
/// source asset is worth, as a quantity of the destination asset.
#[derive(Clone, Copy, Debug, PartialEq, Eq, Structural)]
pub struct OrderRate {
    pub inner: Amount,
}

/// A rate in a settlement payload: a rate of exchange, or one of the marks
/// that a settlement contract reads as "no bound".
#[derive(Clone, Copy, Debug, PartialEq, Eq, Structural)]
pub enum Rate {
    OrderRate(OrderRate),
    /// The lowest order rate: no lower bound on the rate, and as a fee, none.
    MinOrderRate,
    /// The highest order rate: no upper bound on the rate.
    MaxOrderRate,
}

/// The units of the destination asset that `units` of ten to the minus
/// `precision` of the source are worth at `rate_units` per whole source unit,
/// rounded down.
pub open spec fn exchanged_units(units: nat, precision: nat, rate_units: nat) -> nat {
    (units * rate_units) / pow10(precision)
}

impl AssetAmount {
    /// What `exchange_at` returns.
    pub open spec fn spec_exchange_at(&self, rate: OrderRate, into: AssetOfPrecision) -> Result<
        AssetAmount,
        ProtocolError,
    > {
        let units = exchanged_units(
            self.amount.units as nat,
            self.amount.precision as nat,
            rate.inner.units as nat,
        );
        if rate.inner.precision == into.precision && units <= u64::MAX {
            Ok(
                AssetAmount {
                    asset: into,
                    amount: Amount { units: units as u64, precision: into.precision },
                },
            )
        } else {
            Err(ProtocolError::InvalidAmount)
        }
    }

    /// The amount of `into` that this amount is worth at `rate`, rounded
    /// down to the precision of `into`. The rate must be counted in that
    /// precision, and the result must fit the encoding.
    pub fn exchange_at(&self, rate: &OrderRate, into: AssetOfPrecision) -> (r: Result<
        AssetAmount,
        ProtocolError,
    >)
        ensures
            r == self.spec_exchange_at(*rate, into),
    {
        if rate.inner.precision != into.precision {
            return Err(ProtocolError::InvalidAmount);
        }
        let units: u64 = self.amount.units;
        let rate_units: u64 = rate.inner.units;
        assert(units as nat * rate_units as nat <= 0xffff_ffff_ffff_ffff * 0xffff_ffff_ffff_ffff)
            by (nonlinear_arith)
            requires
                units <= 0xffff_ffff_ffff_ffff,
                rate_units <= 0xffff_ffff_ffff_ffff,
        ;
        let product: u128 = (units as u128) * (rate_units as u128);
        let mut quotient: u128 = product;
        let mut j: u8 = 0;
        proof {
            assert(pow10(0) == 1);
        }
        while j < self.amount.precision
            invariant
                j <= self.amount.precision,
                quotient == product as nat / pow10(j as nat),
            decreases self.amount.precision - j,
        {
            proof {
                lemma_pow10_monotone(0, j as nat);
                lemma_div_denominator(product as int, pow10(j as nat) as int, 10);
                assert(pow10((j + 1) as nat) == pow10(j as nat) * 10);
            }
            quotient = quotient / 10;
            j = j + 1;
        }
        if quotient > 0xffff_ffff_ffff_ffff {
            return Err(ProtocolError::InvalidAmount);
        }
        Ok(
            AssetAmount {
                asset: into,
                amount: Amount { units: quotient as u64, precision: into.precision },
            },
        )
    }
}

} // verus!

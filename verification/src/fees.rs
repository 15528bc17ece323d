use vstd::prelude::*;

use crate::error::Error;

verus! {

/// What a pro-rata fee charge returns: `amount * numerator / denominator`,
/// rounded down.  A numerator of zero charges nothing, whatever the
/// denominator; otherwise a zero denominator or an overflowing product is a
/// failed fee computation.
pub open spec fn spec_fee(amount: u128, numerator: u64, denominator: u64) -> Option<u128> {
    if numerator == 0 {
        Some(0u128)
    } else if amount * numerator > u128::MAX {
        None
    } else if denominator == 0 {
        None
    } else {
        Some(((amount * numerator) / (denominator as int)) as u128)
    }
}

/// A fee pair is well formed when it charges nothing or names a usable
/// fraction of at most one.
pub open spec fn spec_fee_pair_valid(numerator: u64, denominator: u64) -> bool {
    numerator == 0 || (denominator != 0 && numerator <= denominator)
}

/// The fee parameters of a pool: four independent pro-rata charges, each a
/// pure function of an input amount.
#[derive(Clone, Copy, Debug, PartialEq, Eq, Structural)]
pub struct Fees {
    /// Fee on trades that stays inside the pool, paid to share holders.
    pub trade_fee_numerator: u64,
    pub trade_fee_denominator: u64,
    /// Fee on trades routed to the protocol owner.
    pub owner_trade_fee_numerator: u64,
    pub owner_trade_fee_denominator: u64,
    /// Fee charged on withdrawals, in pool shares.
    pub owner_withdraw_fee_numerator: u64,
    pub owner_withdraw_fee_denominator: u64,
    /// Referral share carved out of the owner's trade fee.
    pub host_fee_numerator: u64,
    pub host_fee_denominator: u64,
}

pub open spec fn spec_fees_valid(fees: Fees) -> bool {
    &&& spec_fee_pair_valid(fees.trade_fee_numerator, fees.trade_fee_denominator)
    &&& spec_fee_pair_valid(fees.owner_trade_fee_numerator, fees.owner_trade_fee_denominator)
    &&& spec_fee_pair_valid(fees.owner_withdraw_fee_numerator, fees.owner_withdraw_fee_denominator)
    &&& spec_fee_pair_valid(fees.host_fee_numerator, fees.host_fee_denominator)
}

fn fee_amount(amount: u128, numerator: u64, denominator: u64) -> (r: Option<u128>)
    ensures
        r == spec_fee(amount, numerator, denominator),
{
    if numerator == 0 {
        Some(0)
    } else {
        match amount.checked_mul(numerator as u128) {
            Some(product) => product.checked_div(denominator as u128),
            None => None,
        }
    }
}

impl Fees {
    /// Trading fee kept by the pool, charged on the source amount of a swap.
    pub fn trading_fee(&self, amount: u128) -> (r: Option<u128>)
        ensures
            r == spec_fee(amount, self.trade_fee_numerator, self.trade_fee_denominator),
    {
        fee_amount(amount, self.trade_fee_numerator, self.trade_fee_denominator)
    }

    /// Trading fee routed to the protocol owner.
    pub fn owner_trading_fee(&self, amount: u128) -> (r: Option<u128>)
        ensures
            r == spec_fee(amount, self.owner_trade_fee_numerator, self.owner_trade_fee_denominator),
    {
        fee_amount(amount, self.owner_trade_fee_numerator, self.owner_trade_fee_denominator)
    }

    /// Withdrawal fee, charged in pool shares.
    pub fn owner_withdraw_fee(&self, amount: u128) -> (r: Option<u128>)
        ensures
            r == spec_fee(
                amount,
                self.owner_withdraw_fee_numerator,
                self.owner_withdraw_fee_denominator,
            ),
    {
        fee_amount(amount, self.owner_withdraw_fee_numerator, self.owner_withdraw_fee_denominator)
    }

    /// Referral share taken out of owner fees already expressed in pool shares.
    pub fn host_fee(&self, amount: u128) -> (r: Option<u128>)
        ensures
            r == spec_fee(amount, self.host_fee_numerator, self.host_fee_denominator),
    {
        fee_amount(amount, self.host_fee_numerator, self.host_fee_denominator)
    }

    /// Checks the schedule once at pool initialization: every fee must charge
    /// nothing or name a fraction of at most one.
    pub fn validate(&self) -> (r: Result<(), Error>)
        ensures
            r == (if spec_fees_valid(*self) {
                Result::<(), Error>::Ok(())
            } else {
                Result::<(), Error>::Err(Error::FeeCalculationFailure)
            }),
    {
        if (self.trade_fee_numerator == 0 || (self.trade_fee_denominator != 0
            && self.trade_fee_numerator <= self.trade_fee_denominator))
            && (self.owner_trade_fee_numerator == 0 || (self.owner_trade_fee_denominator != 0
                && self.owner_trade_fee_numerator <= self.owner_trade_fee_denominator))
            && (self.owner_withdraw_fee_numerator == 0 || (self.owner_withdraw_fee_denominator != 0
                && self.owner_withdraw_fee_numerator <= self.owner_withdraw_fee_denominator))
            && (self.host_fee_numerator == 0 || (self.host_fee_denominator != 0
                && self.host_fee_numerator <= self.host_fee_denominator)) {
            Ok(())
        } else {
            Err(Error::FeeCalculationFailure)
        }
    }
}

} // verus!

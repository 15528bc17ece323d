use vstd::prelude::*;

use crate::curve::{
    spec_deposit_single_with_fee, spec_pool_tokens_to_trading_tokens, spec_source_reserve,
    spec_swap_result, spec_withdraw_single_with_fee, ConstantProduct, RoundDirection,
    TradeDirection, INITIAL_SWAP_POOL_AMOUNT,
};
use crate::error::Error;
use crate::fees::{spec_fee, spec_fees_valid, Fees};

verus! {

/// The transfers and the mint that carry out a dual-sided deposit.
#[derive(Clone, Copy, Debug, PartialEq, Eq, Structural)]
pub struct DepositAllResult {
    /// Amount of token A the depositor hands to the pool.
    pub token_a_amount: u64,
    /// Amount of token B the depositor hands to the pool.
    pub token_b_amount: u64,
    /// Amount of pool shares minted to the depositor.
    pub pool_token_amount: u64,
}

/// The transfers and the burn that carry out a dual-sided withdrawal.
#[derive(Clone, Copy, Debug, PartialEq, Eq, Structural)]
pub struct WithdrawAllResult {
    /// Pool shares routed to the fee account before burning.
    pub withdraw_fee: u64,
    /// Pool shares burned.
    pub burn_pool_token_amount: u64,
    /// Amount of token A paid out to the depositor.
    pub token_a_amount: u64,
    /// Amount of token B paid out to the depositor.
    pub token_b_amount: u64,
}

/// The fee transfer and the burn that carry out a single-sided withdrawal.
#[derive(Clone, Copy, Debug, PartialEq, Eq, Structural)]
pub struct WithdrawSingleResult {
    /// Pool shares routed to the fee account.
    pub withdraw_fee: u64,
    /// Pool shares burned to back the requested payout.
    pub burn_pool_token_amount: u64,
}

/// The transfers and fee mints that carry out a swap.
#[derive(Clone, Copy, Debug, PartialEq, Eq, Structural)]
pub struct SwapOutcome {
    /// Source tokens the swapper hands to the pool, fees included.
    pub source_transfer: u64,
    /// Destination tokens the pool pays out to the swapper.
    pub destination_transfer: u64,
    /// Pool shares minted to the host referral account.
    pub host_fee_mint: u64,
    /// Pool shares minted to the protocol fee account.
    pub pool_fee_mint: u64,
}

/// What narrowing to u64 returns: the value, or `ConversionFailure` where it
/// does not fit.
pub open spec fn spec_to_u64(val: u128) -> Result<u64, Error> {
    if val <= u64::MAX {
        Ok(val as u64)
    } else {
        Err(Error::ConversionFailure)
    }
}

fn to_u128(val: u64) -> (r: Result<u128, Error>)
    ensures
        r == Ok::<u128, Error>(val as u128),
{
    Ok(val as u128)
}

fn to_u64(val: u128) -> (r: Result<u64, Error>)
    ensures
        r == spec_to_u64(val),
{
    if val <= u64::MAX as u128 {
        Ok(val as u64)
    } else {
        Err(Error::ConversionFailure)
    }
}

/// What the withdrawal fee charge returns: nothing when withdrawing from the
/// pool's own fee account, otherwise the owner withdrawal fee on the share
/// amount, failing as the fee computation does.
pub open spec fn spec_withdraw_fee(
    fees: Fees,
    from_fee_account: bool,
    pool_token_amount: u128,
) -> Result<u128, Error> {
    if from_fee_account {
        Ok(0u128)
    } else {
        match spec_fee(
            pool_token_amount,
            fees.owner_withdraw_fee_numerator,
            fees.owner_withdraw_fee_denominator,
        ) {
            Some(fee) => Ok(fee),
            None => Err(Error::FeeCalculationFailure),
        }
    }
}

/// The withdrawal fee charged on a share amount; withdrawing from the pool's
/// own fee account is exempt.
pub fn withdraw_fee(fees: &Fees, from_fee_account: bool, pool_token_amount: u128) -> (r: Result<
    u128,
    Error,
>)
    ensures
        r == spec_withdraw_fee(*fees, from_fee_account, pool_token_amount),
{
    if from_fee_account {
        Ok(0)
    } else {
        match fees.owner_withdraw_fee(pool_token_amount) {
            Some(fee) => Ok(fee),
            None => Err(Error::FeeCalculationFailure),
        }
    }
}

/// What initializing a pool returns: the initial share supply to mint, once
/// both reserves are funded and the fee schedule is valid.
pub open spec fn spec_initialize(
    token_a_amount: u64,
    token_b_amount: u64,
    fees: Fees,
) -> Result<u64, Error> {
    if token_a_amount == 0 || token_b_amount == 0 {
        Err(Error::EmptySupply)
    } else if !spec_fees_valid(fees) {
        Err(Error::FeeCalculationFailure)
    } else {
        Ok(INITIAL_SWAP_POOL_AMOUNT as u64)
    }
}

/// Checks a new pool's funding and fee schedule and returns the initial
/// share supply to mint to the initializer.
pub fn initialize(token_a_amount: u64, token_b_amount: u64, fees: &Fees) -> (r: Result<u64, Error>)
    ensures
        r == spec_initialize(token_a_amount, token_b_amount, *fees),
{
    let curve = ConstantProduct {};
    match curve.validate_supply(token_a_amount, token_b_amount) {
        Ok(_) => (),
        Err(e) => {
            return Err(e);
        },
    };
    match fees.validate() {
        Ok(_) => (),
        Err(e) => {
            return Err(e);
        },
    };
    to_u64(curve.new_pool_supply())
}

/// What a dual-sided deposit returns.  Before the first mint the deposit
/// takes the whole initial supply; afterwards the requested share amount is
/// priced against the current supply, rounding the deposited reserves up.
pub open spec fn spec_deposit_all(
    pool_token_amount: u64,
    pool_mint_supply: u64,
    token_a_reserve: u64,
    token_b_reserve: u64,
    maximum_token_a_amount: u64,
    maximum_token_b_amount: u64,
) -> Result<DepositAllResult, Error> {
    let amount: u128 = if pool_mint_supply > 0 {
        pool_token_amount as u128
    } else {
        INITIAL_SWAP_POOL_AMOUNT
    };
    let supply: u128 = if pool_mint_supply > 0 {
        pool_mint_supply as u128
    } else {
        INITIAL_SWAP_POOL_AMOUNT
    };
    match spec_pool_tokens_to_trading_tokens(
        amount,
        supply,
        token_a_reserve as u128,
        token_b_reserve as u128,
        RoundDirection::Ceiling,
    ) {
        None => Err(Error::ZeroTradingTokens),
        Some(amounts) => match spec_to_u64(amounts.0) {
            Err(e) => Err(e),
            Ok(token_a_amount) => {
                if token_a_amount > maximum_token_a_amount {
                    Err(Error::ExceededSlippage)
                } else if token_a_amount == 0 {
                    Err(Error::ZeroTradingTokens)
                } else {
                    match spec_to_u64(amounts.1) {
                        Err(e) => Err(e),
                        Ok(token_b_amount) => {
                            if token_b_amount > maximum_token_b_amount {
                                Err(Error::ExceededSlippage)
                            } else if token_b_amount == 0 {
                                Err(Error::ZeroTradingTokens)
                            } else {
                                match spec_to_u64(amount) {
                                    Err(e) => Err(e),
                                    Ok(mint_amount) => Ok(
                                        DepositAllResult {
                                            token_a_amount,
                                            token_b_amount,
                                            pool_token_amount: mint_amount,
                                        },
                                    ),
                                }
                            }
                        },
                    }
                }
            },
        },
    }
}

/// Prices a dual-sided deposit: how much of each reserve the depositor hands
/// over, against caller-supplied ceilings, and how many shares are minted.
pub fn deposit_all(
    pool_token_amount: u64,
    pool_mint_supply: u64,
    token_a_reserve: u64,
    token_b_reserve: u64,
    maximum_token_a_amount: u64,
    maximum_token_b_amount: u64,
) -> (r: Result<DepositAllResult, Error>)
    ensures
        r == spec_deposit_all(
            pool_token_amount,
            pool_mint_supply,
            token_a_reserve,
            token_b_reserve,
            maximum_token_a_amount,
            maximum_token_b_amount,
        ),
{
    let curve = ConstantProduct {};
    let (amount, supply): (u128, u128) = if pool_mint_supply > 0 {
        (
            match to_u128(pool_token_amount) {
                Ok(v) => v,
                Err(e) => {
                    return Err(e);
                },
            },
            match to_u128(pool_mint_supply) {
                Ok(v) => v,
                Err(e) => {
                    return Err(e);
                },
            },
        )
    } else {
        (curve.new_pool_supply(), curve.new_pool_supply())
    };
    let amounts = match curve.pool_tokens_to_trading_tokens(
        amount,
        supply,
        match to_u128(token_a_reserve) {
            Ok(v) => v,
            Err(e) => {
                return Err(e);
            },
        },
        match to_u128(token_b_reserve) {
            Ok(v) => v,
            Err(e) => {
                return Err(e);
            },
        },
        RoundDirection::Ceiling,
    ) {
        Some(v) => v,
        None => {
            return Err(Error::ZeroTradingTokens);
        },
    };
    let token_a_amount = match to_u64(amounts.0) {
        Ok(v) => v,
        Err(e) => {
            return Err(e);
        },
    };
    if token_a_amount > maximum_token_a_amount {
        return Err(Error::ExceededSlippage);
    }
    if token_a_amount == 0 {
        return Err(Error::ZeroTradingTokens);
    }
    let token_b_amount = match to_u64(amounts.1) {
        Ok(v) => v,
        Err(e) => {
            return Err(e);
        },
    };
    if token_b_amount > maximum_token_b_amount {
        return Err(Error::ExceededSlippage);
    }
    if token_b_amount == 0 {
        return Err(Error::ZeroTradingTokens);
    }
    let mint_amount = match to_u64(amount) {
        Ok(v) => v,
        Err(e) => {
            return Err(e);
        },
    };
    Ok(DepositAllResult { token_a_amount, token_b_amount, pool_token_amount: mint_amount })
}

/// What the share-mint checks shared by single-sided deposits return: the
/// share amount narrowed to u64, rejected when it falls short of the
/// caller's minimum or rounds to zero.
pub open spec fn spec_mint_checks(
    pool_token_amount: u128,
    minimum_pool_token_amount: u64,
) -> Result<u64, Error> {
    match spec_to_u64(pool_token_amount) {
        Err(e) => Err(e),
        Ok(minted) => {
            if minted < minimum_pool_token_amount {
                Err(Error::ExceededSlippage)
            } else if minted == 0 {
                Err(Error::ZeroTradingTokens)
            } else {
                Ok(minted)
            }
        },
    }
}

/// What a single-sided deposit returns: before the first mint it takes the
/// whole initial supply; afterwards the Balancer deposit formula prices the
/// deposit against the source-side reserve.
pub open spec fn spec_deposit_single(
    source_token_amount: u64,
    pool_mint_supply: u64,
    token_a_reserve: u64,
    token_b_reserve: u64,
    trade_direction: TradeDirection,
    fees: Fees,
    minimum_pool_token_amount: u64,
) -> Result<u64, Error> {
    if pool_mint_supply > 0 {
        match spec_deposit_single_with_fee(
            source_token_amount as u128,
            spec_source_reserve(trade_direction, token_a_reserve as u128, token_b_reserve as u128),
            pool_mint_supply as u128,
            fees,
        ) {
            None => Err(Error::ZeroTradingTokens),
            Some(pool_token_amount) => spec_mint_checks(pool_token_amount, minimum_pool_token_amount),
        }
    } else {
        spec_mint_checks(INITIAL_SWAP_POOL_AMOUNT, minimum_pool_token_amount)
    }
}

/// Prices a single-sided deposit: how many shares the deposited amount
/// mints, against a caller-supplied minimum.
pub fn deposit_single(
    source_token_amount: u64,
    pool_mint_supply: u64,
    token_a_reserve: u64,
    token_b_reserve: u64,
    trade_direction: &TradeDirection,
    fees: &Fees,
    minimum_pool_token_amount: u64,
) -> (r: Result<u64, Error>)
    ensures
        r == spec_deposit_single(
            source_token_amount,
            pool_mint_supply,
            token_a_reserve,
            token_b_reserve,
            *trade_direction,
            *fees,
            minimum_pool_token_amount,
        ),
{
    let curve = ConstantProduct {};
    let pool_token_amount: u128 = if pool_mint_supply > 0 {
        match curve.deposit_single_token_type(
            match to_u128(source_token_amount) {
                Ok(v) => v,
                Err(e) => {
                    return Err(e);
                },
            },
            match to_u128(token_a_reserve) {
                Ok(v) => v,
                Err(e) => {
                    return Err(e);
                },
            },
            match to_u128(token_b_reserve) {
                Ok(v) => v,
                Err(e) => {
                    return Err(e);
                },
            },
            match to_u128(pool_mint_supply) {
                Ok(v) => v,
                Err(e) => {
                    return Err(e);
                },
            },
            trade_direction,
            fees,
        ) {
            Some(v) => v,
            None => {
                return Err(Error::ZeroTradingTokens);
            },
        }
    } else {
        curve.new_pool_supply()
    };
    let minted = match to_u64(pool_token_amount) {
        Ok(v) => v,
        Err(e) => {
            return Err(e);
        },
    };
    if minted < minimum_pool_token_amount {
        return Err(Error::ExceededSlippage);
    }
    if minted == 0 {
        return Err(Error::ZeroTradingTokens);
    }
    Ok(minted)
}

/// What a dual-sided withdrawal returns.  The withdrawal fee is taken off
/// the shares first, the rest converts to reserves rounding down, each side
/// is clamped to its reserve, and a zero payout from a nonzero reserve is
/// rejected.
pub open spec fn spec_withdraw_all(
    pool_token_amount: u64,
    pool_mint_supply: u64,
    token_a_reserve: u64,
    token_b_reserve: u64,
    minimum_token_a_amount: u64,
    minimum_token_b_amount: u64,
    from_fee_account: bool,
    fees: Fees,
) -> Result<WithdrawAllResult, Error> {
    match spec_withdraw_fee(fees, from_fee_account, pool_token_amount as u128) {
        Err(e) => Err(e),
        Ok(fee) => {
            if (pool_token_amount as u128) < fee {
                Err(Error::FeeCalculationFailure)
            } else {
                let burn_amount: u128 = (pool_token_amount - fee) as u128;
                match spec_pool_tokens_to_trading_tokens(
                    burn_amount,
                    pool_mint_supply as u128,
                    token_a_reserve as u128,
                    token_b_reserve as u128,
                    RoundDirection::Floor,
                ) {
                    None => Err(Error::ZeroTradingTokens),
                    Some(amounts) => match spec_to_u64(amounts.0) {
                        Err(e) => Err(e),
                        Ok(a_converted) => {
                            let token_a_amount: u64 = if token_a_reserve <= a_converted {
                                token_a_reserve
                            } else {
                                a_converted
                            };
                            if token_a_amount < minimum_token_a_amount {
                                Err(Error::ExceededSlippage)
                            } else if token_a_amount == 0 && token_a_reserve != 0 {
                                Err(Error::ZeroTradingTokens)
                            } else {
                                match spec_to_u64(amounts.1) {
                                    Err(e) => Err(e),
                                    Ok(b_converted) => {
                                        let token_b_amount: u64 = if token_b_reserve
                                            <= b_converted {
                                            token_b_reserve
                                        } else {
                                            b_converted
                                        };
                                        if token_b_amount < minimum_token_b_amount {
                                            Err(Error::ExceededSlippage)
                                        } else if token_b_amount == 0 && token_b_reserve != 0 {
                                            Err(Error::ZeroTradingTokens)
                                        } else {
                                            match spec_to_u64(fee) {
                                                Err(e) => Err(e),
                                                Ok(fee_transfer) => Ok(
                                                    WithdrawAllResult {
                                                        withdraw_fee: fee_transfer,
                                                        burn_pool_token_amount: burn_amount as u64,
                                                        token_a_amount,
                                                        token_b_amount,
                                                    },
                                                ),
                                            }
                                        }
                                    },
                                }
                            }
                        },
                    },
                }
            }
        },
    }
}

/// Prices a dual-sided withdrawal: the withdrawal fee, the shares burned and
/// the reserve amounts paid out, against caller-supplied floors.
pub fn withdraw_all(
    pool_token_amount: u64,
    pool_mint_supply: u64,
    token_a_reserve: u64,
    token_b_reserve: u64,
    minimum_token_a_amount: u64,
    minimum_token_b_amount: u64,
    from_fee_account: bool,
    fees: &Fees,
) -> (r: Result<WithdrawAllResult, Error>)
    ensures
        r == spec_withdraw_all(
            pool_token_amount,
            pool_mint_supply,
            token_a_reserve,
            token_b_reserve,
            minimum_token_a_amount,
            minimum_token_b_amount,
            from_fee_account,
            *fees,
        ),
{
    let curve = ConstantProduct {};
    let fee = match withdraw_fee(
        fees,
        from_fee_account,
        match to_u128(pool_token_amount) {
            Ok(v) => v,
            Err(e) => {
                return Err(e);
            },
        },
    ) {
        Ok(v) => v,
        Err(e) => {
            return Err(e);
        },
    };
    let burn_amount = match (pool_token_amount as u128).checked_sub(fee) {
        Some(v) => v,
        None => {
            return Err(Error::FeeCalculationFailure);
        },
    };
    let amounts = match curve.pool_tokens_to_trading_tokens(
        burn_amount,
        match to_u128(pool_mint_supply) {
            Ok(v) => v,
            Err(e) => {
                return Err(e);
            },
        },
        match to_u128(token_a_reserve) {
            Ok(v) => v,
            Err(e) => {
                return Err(e);
            },
        },
        match to_u128(token_b_reserve) {
            Ok(v) => v,
            Err(e) => {
                return Err(e);
            },
        },
        RoundDirection::Floor,
    ) {
        Some(v) => v,
        None => {
            return Err(Error::ZeroTradingTokens);
        },
    };
    let a_converted = match to_u64(amounts.0) {
        Ok(v) => v,
        Err(e) => {
            return Err(e);
        },
    };
    let token_a_amount: u64 = if token_a_reserve <= a_converted {
        token_a_reserve
    } else {
        a_converted
    };
    if token_a_amount < minimum_token_a_amount {
        return Err(Error::ExceededSlippage);
    }
    if token_a_amount == 0 && token_a_reserve != 0 {
        return Err(Error::ZeroTradingTokens);
    }
    let b_converted = match to_u64(amounts.1) {
        Ok(v) => v,
        Err(e) => {
            return Err(e);
        },
    };
    let token_b_amount: u64 = if token_b_reserve <= b_converted {
        token_b_reserve
    } else {
        b_converted
    };
    if token_b_amount < minimum_token_b_amount {
        return Err(Error::ExceededSlippage);
    }
    if token_b_amount == 0 && token_b_reserve != 0 {
        return Err(Error::ZeroTradingTokens);
    }
    let fee_transfer = match to_u64(fee) {
        Ok(v) => v,
        Err(e) => {
            return Err(e);
        },
    };
    let burn = match to_u64(burn_amount) {
        Ok(v) => v,
        Err(e) => {
            return Err(e);
        },
    };
    Ok(
        WithdrawAllResult {
            withdraw_fee: fee_transfer,
            burn_pool_token_amount: burn,
            token_a_amount,
            token_b_amount,
        },
    )
}

/// What a single-sided exact-out withdrawal returns: the shares backing the
/// requested payout, the withdrawal fee on top of them, checked against the
/// caller's share budget.
pub open spec fn spec_withdraw_single(
    destination_token_amount: u64,
    pool_mint_supply: u64,
    token_a_reserve: u64,
    token_b_reserve: u64,
    trade_direction: TradeDirection,
    from_fee_account: bool,
    fees: Fees,
    maximum_pool_token_amount: u64,
) -> Result<WithdrawSingleResult, Error> {
    match spec_withdraw_single_with_fee(
        destination_token_amount as u128,
        spec_source_reserve(trade_direction, token_a_reserve as u128, token_b_reserve as u128),
        pool_mint_supply as u128,
        fees,
    ) {
        None => Err(Error::ZeroTradingTokens),
        Some(burn_amount) => match spec_withdraw_fee(fees, from_fee_account, burn_amount) {
            Err(e) => Err(e),
            Ok(fee) => {
                if burn_amount + fee > u128::MAX {
                    Err(Error::CalculationFailure)
                } else {
                    match spec_to_u64((burn_amount + fee) as u128) {
                        Err(e) => Err(e),
                        Ok(total) => {
                            if total > maximum_pool_token_amount {
                                Err(Error::ExceededSlippage)
                            } else if total == 0 {
                                Err(Error::ZeroTradingTokens)
                            } else {
                                Ok(
                                    WithdrawSingleResult {
                                        withdraw_fee: fee as u64,
                                        burn_pool_token_amount: burn_amount as u64,
                                    },
                                )
                            }
                        },
                    }
                }
            },
        },
    }
}

/// Prices a single-sided exact-out withdrawal: the shares to burn and the
/// withdrawal fee, against a caller-supplied share budget.
pub fn withdraw_single(
    destination_token_amount: u64,
    pool_mint_supply: u64,
    token_a_reserve: u64,
    token_b_reserve: u64,
    trade_direction: &TradeDirection,
    from_fee_account: bool,
    fees: &Fees,
    maximum_pool_token_amount: u64,
) -> (r: Result<WithdrawSingleResult, Error>)
    ensures
        r == spec_withdraw_single(
            destination_token_amount,
            pool_mint_supply,
            token_a_reserve,
            token_b_reserve,
            *trade_direction,
            from_fee_account,
            *fees,
            maximum_pool_token_amount,
        ),
{
    let curve = ConstantProduct {};
    let burn_amount = match curve.withdraw_single_token_type_exact_out(
        match to_u128(destination_token_amount) {
            Ok(v) => v,
            Err(e) => {
                return Err(e);
            },
        },
        match to_u128(token_a_reserve) {
            Ok(v) => v,
            Err(e) => {
                return Err(e);
            },
        },
        match to_u128(token_b_reserve) {
            Ok(v) => v,
            Err(e) => {
                return Err(e);
            },
        },
        match to_u128(pool_mint_supply) {
            Ok(v) => v,
            Err(e) => {
                return Err(e);
            },
        },
        trade_direction,
        fees,
    ) {
        Some(v) => v,
        None => {
            return Err(Error::ZeroTradingTokens);
        },
    };
    let fee = match withdraw_fee(fees, from_fee_account, burn_amount) {
        Ok(v) => v,
        Err(e) => {
            return Err(e);
        },
    };
    let pool_token_amount = match burn_amount.checked_add(fee) {
        Some(v) => v,
        None => {
            return Err(Error::CalculationFailure);
        },
    };
    let total = match to_u64(pool_token_amount) {
        Ok(v) => v,
        Err(e) => {
            return Err(e);
        },
    };
    if total > maximum_pool_token_amount {
        return Err(Error::ExceededSlippage);
    }
    if total == 0 {
        return Err(Error::ZeroTradingTokens);
    }
    let fee_transfer = match to_u64(fee) {
        Ok(v) => v,
        Err(e) => {
            return Err(e);
        },
    };
    let burn = match to_u64(burn_amount) {
        Ok(v) => v,
        Err(e) => {
            return Err(e);
        },
    };
    Ok(WithdrawSingleResult { withdraw_fee: fee_transfer, burn_pool_token_amount: burn })
}

/// What the owner-fee share issuance after a swap returns: the owner fee,
/// already converted to shares, is split into the host referral mint and the
/// protocol fee mint.
pub open spec fn spec_swap_fee_mints(pool_token_amount: u128, fees: Fees) -> Result<
    (u64, u64),
    Error,
> {
    if pool_token_amount > 0 {
        match spec_fee(pool_token_amount, fees.host_fee_numerator, fees.host_fee_denominator) {
            None => Err(Error::FeeCalculationFailure),
            Some(host_fee) => {
                if host_fee > 0 {
                    match spec_to_u64(host_fee) {
                        Err(e) => Err(e),
                        Ok(host_mint) => {
                            if pool_token_amount < host_fee {
                                Err(Error::FeeCalculationFailure)
                            } else {
                                match spec_to_u64((pool_token_amount - host_fee) as u128) {
                                    Err(e) => Err(e),
                                    Ok(pool_mint) => Ok((host_mint, pool_mint)),
                                }
                            }
                        },
                    }
                } else {
                    match spec_to_u64(pool_token_amount) {
                        Err(e) => Err(e),
                        Ok(pool_mint) => Ok((0u64, pool_mint)),
                    }
                }
            },
        }
    } else {
        Ok((0u64, 0u64))
    }
}

/// What a swap returns.  The curve prices the trade; the payout is checked
/// against the caller's floor; the owner fee is re-expressed as shares
/// against the post-swap reserves via the exact-out withdrawal formula and
/// split between the host and the protocol fee accounts.
pub open spec fn spec_swap_pool(
    amount_in: u64,
    source_reserve: u64,
    destination_reserve: u64,
    pool_mint_supply: u64,
    trade_direction: TradeDirection,
    fees: Fees,
    minimum_amount_out: u64,
) -> Result<SwapOutcome, Error> {
    match spec_swap_result(
        amount_in as u128,
        source_reserve as u128,
        destination_reserve as u128,
        fees,
    ) {
        None => Err(Error::ZeroTradingTokens),
        Some(result) => {
            if result.destination_amount_swapped < minimum_amount_out as u128 {
                Err(Error::ExceededSlippage)
            } else {
                let post_a: u128 = match trade_direction {
                    TradeDirection::AtoB => result.new_swap_source_amount,
                    TradeDirection::BtoA => result.new_swap_destination_amount,
                };
                let post_b: u128 = match trade_direction {
                    TradeDirection::AtoB => result.new_swap_destination_amount,
                    TradeDirection::BtoA => result.new_swap_source_amount,
                };
                match spec_withdraw_single_with_fee(
                    result.owner_fee,
                    spec_source_reserve(trade_direction, post_a, post_b),
                    pool_mint_supply as u128,
                    fees,
                ) {
                    None => Err(Error::FeeCalculationFailure),
                    Some(pool_token_amount) => match spec_swap_fee_mints(pool_token_amount, fees) {
                        Err(e) => Err(e),
                        Ok(mints) => match spec_to_u64(result.source_amount_swapped) {
                            Err(e) => Err(e),
                            Ok(source_transfer) => match spec_to_u64(
                                result.destination_amount_swapped,
                            ) {
                                Err(e) => Err(e),
                                Ok(destination_transfer) => Ok(
                                    SwapOutcome {
                                        source_transfer,
                                        destination_transfer,
                                        host_fee_mint: mints.0,
                                        pool_fee_mint: mints.1,
                                    },
                                ),
                            },
                        },
                    },
                }
            }
        },
    }
}

/// Prices a swap end to end: the transfers to make and the fee shares to
/// mint, against a caller-supplied payout floor.
pub fn swap(
    amount_in: u64,
    source_reserve: u64,
    destination_reserve: u64,
    pool_mint_supply: u64,
    trade_direction: &TradeDirection,
    fees: &Fees,
    minimum_amount_out: u64,
) -> (r: Result<SwapOutcome, Error>)
    ensures
        r == spec_swap_pool(
            amount_in,
            source_reserve,
            destination_reserve,
            pool_mint_supply,
            *trade_direction,
            *fees,
            minimum_amount_out,
        ),
{
    let curve = ConstantProduct {};
    let result = match curve.swap(
        match to_u128(amount_in) {
            Ok(v) => v,
            Err(e) => {
                return Err(e);
            },
        },
        match to_u128(source_reserve) {
            Ok(v) => v,
            Err(e) => {
                return Err(e);
            },
        },
        match to_u128(destination_reserve) {
            Ok(v) => v,
            Err(e) => {
                return Err(e);
            },
        },
        fees,
    ) {
        Some(v) => v,
        None => {
            return Err(Error::ZeroTradingTokens);
        },
    };
    let minimum_out = match to_u128(minimum_amount_out) {
        Ok(v) => v,
        Err(e) => {
            return Err(e);
        },
    };
    if result.destination_amount_swapped < minimum_out {
        return Err(Error::ExceededSlippage);
    }
    let (post_a, post_b): (u128, u128) = match trade_direction {
        TradeDirection::AtoB => (result.new_swap_source_amount, result.new_swap_destination_amount),
        TradeDirection::BtoA => (result.new_swap_destination_amount, result.new_swap_source_amount),
    };
    let pool_token_amount = match curve.withdraw_single_token_type_exact_out(
        result.owner_fee,
        post_a,
        post_b,
        match to_u128(pool_mint_supply) {
            Ok(v) => v,
            Err(e) => {
                return Err(e);
            },
        },
        trade_direction,
        fees,
    ) {
        Some(v) => v,
        None => {
            return Err(Error::FeeCalculationFailure);
        },
    };
    let mut host_fee_mint: u64 = 0;
    let mut pool_fee_mint: u64 = 0;
    if pool_token_amount > 0 {
        let host_fee = match fees.host_fee(pool_token_amount) {
            Some(v) => v,
            None => {
                return Err(Error::FeeCalculationFailure);
            },
        };
        let mut remaining = pool_token_amount;
        if host_fee > 0 {
            host_fee_mint = match to_u64(host_fee) {
                Ok(v) => v,
                Err(e) => {
                    return Err(e);
                },
            };
            remaining = match pool_token_amount.checked_sub(host_fee) {
                Some(v) => v,
                None => {
                    return Err(Error::FeeCalculationFailure);
                },
            };
        }
        pool_fee_mint = match to_u64(remaining) {
            Ok(v) => v,
            Err(e) => {
                return Err(e);
            },
        };
    }
    let source_transfer = match to_u64(result.source_amount_swapped) {
        Ok(v) => v,
        Err(e) => {
            return Err(e);
        },
    };
    let destination_transfer = match to_u64(result.destination_amount_swapped) {
        Ok(v) => v,
        Err(e) => {
            return Err(e);
        },
    };
    Ok(SwapOutcome { source_transfer, destination_transfer, host_fee_mint, pool_fee_mint })
}

} // verus!

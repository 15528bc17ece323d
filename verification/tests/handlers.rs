use liquidity_curve::curve::TradeDirection;
use liquidity_curve::error::Error;
use liquidity_curve::fees::Fees;
use liquidity_curve::pool::{
    deposit_all, deposit_single, initialize, swap, withdraw_all, withdraw_fee, withdraw_single,
    DepositAllResult, SwapOutcome, WithdrawAllResult, WithdrawSingleResult,
};

fn zero_fees() -> Fees {
    Fees {
        trade_fee_numerator: 0,
        trade_fee_denominator: 1,
        owner_trade_fee_numerator: 0,
        owner_trade_fee_denominator: 1,
        owner_withdraw_fee_numerator: 0,
        owner_withdraw_fee_denominator: 1,
        host_fee_numerator: 0,
        host_fee_denominator: 1,
    }
}

#[test]
fn initialize_checks_reserves_and_fees() {
    assert_eq!(initialize(0, 100, &zero_fees()), Err(Error::EmptySupply));
    assert_eq!(initialize(100, 0, &zero_fees()), Err(Error::EmptySupply));
    assert_eq!(initialize(100, 100, &zero_fees()), Ok(1_000_000_000));
    let mut bad = zero_fees();
    bad.trade_fee_numerator = 1;
    bad.trade_fee_denominator = 0;
    assert_eq!(initialize(100, 100, &bad), Err(Error::FeeCalculationFailure));
}

#[test]
fn deposit_all_bootstraps_an_empty_pool() {
    // With no shares outstanding, the deposit takes the whole initial supply
    // against the reserves as funded.
    let r = deposit_all(0, 0, 100, 100, 100, 100);
    assert_eq!(
        r,
        Ok(DepositAllResult {
            token_a_amount: 100,
            token_b_amount: 100,
            pool_token_amount: 1_000_000_000,
        })
    );
}

#[test]
fn deposit_all_prices_against_current_supply() {
    let r = deposit_all(500_000_000, 1_000_000_000, 2_000_000, 4_000_000, 1_000_000, 2_000_000);
    assert_eq!(
        r,
        Ok(DepositAllResult {
            token_a_amount: 1_000_000,
            token_b_amount: 2_000_000,
            pool_token_amount: 500_000_000,
        })
    );
}

#[test]
fn deposit_all_enforces_slippage_ceilings() {
    let r = deposit_all(500_000_000, 1_000_000_000, 2_000_000, 4_000_000, 999_999, 2_000_000);
    assert_eq!(r, Err(Error::ExceededSlippage));
    let r = deposit_all(500_000_000, 1_000_000_000, 2_000_000, 4_000_000, 1_000_000, 1_999_999);
    assert_eq!(r, Err(Error::ExceededSlippage));
}

#[test]
fn deposit_all_rejects_zero_sided_deposits() {
    // One share of a billion is worth no whole token on either side.
    let r = deposit_all(1, 1_000_000_000, 100, 100, 100, 100);
    assert_eq!(r, Err(Error::ZeroTradingTokens));
}

#[test]
fn deposit_all_rejects_amounts_past_u64() {
    let r = deposit_all(u64::MAX, 1, u64::MAX, 1, u64::MAX, u64::MAX);
    assert_eq!(r, Err(Error::ConversionFailure));
}

#[test]
fn deposit_single_bootstraps_an_empty_pool() {
    assert_eq!(
        deposit_single(100, 0, 100, 100, &TradeDirection::AtoB, &zero_fees(), 0),
        Ok(1_000_000_000)
    );
}

#[test]
fn deposit_single_perfect_square_scenario() {
    let r = deposit_single(
        1_250_000,
        1_000_000_000,
        1_000_000,
        1_000_000,
        &TradeDirection::AtoB,
        &zero_fees(),
        0,
    );
    assert_eq!(r, Ok(500_000_000));
}

#[test]
fn deposit_single_enforces_minimum() {
    let r = deposit_single(
        1_250_000,
        1_000_000_000,
        1_000_000,
        1_000_000,
        &TradeDirection::AtoB,
        &zero_fees(),
        500_000_001,
    );
    assert_eq!(r, Err(Error::ExceededSlippage));
}

#[test]
fn deposit_single_rejects_zero_mint() {
    // A deposit worth less than one share mints nothing and is rejected.
    let r = deposit_single(
        1,
        1_000_000_000,
        u64::MAX,
        u64::MAX,
        &TradeDirection::AtoB,
        &zero_fees(),
        0,
    );
    assert_eq!(r, Err(Error::ZeroTradingTokens));
}

#[test]
fn withdraw_fee_exempts_the_fee_account() {
    let mut fees = zero_fees();
    fees.owner_withdraw_fee_numerator = 1;
    fees.owner_withdraw_fee_denominator = 10;
    assert_eq!(withdraw_fee(&fees, true, 500_000_000), Ok(0));
    assert_eq!(withdraw_fee(&fees, false, 500_000_000), Ok(50_000_000));
}

#[test]
fn withdraw_all_pays_proportional_reserves() {
    let r = withdraw_all(
        500_000_000,
        1_000_000_000,
        2_000_000,
        4_000_000,
        0,
        0,
        false,
        &zero_fees(),
    );
    assert_eq!(
        r,
        Ok(WithdrawAllResult {
            withdraw_fee: 0,
            burn_pool_token_amount: 500_000_000,
            token_a_amount: 1_000_000,
            token_b_amount: 2_000_000,
        })
    );
}

#[test]
fn withdraw_all_charges_the_withdraw_fee_first() {
    let mut fees = zero_fees();
    fees.owner_withdraw_fee_numerator = 1;
    fees.owner_withdraw_fee_denominator = 10;
    let r = withdraw_all(500_000_000, 1_000_000_000, 2_000_000, 4_000_000, 0, 0, false, &fees);
    assert_eq!(
        r,
        Ok(WithdrawAllResult {
            withdraw_fee: 50_000_000,
            burn_pool_token_amount: 450_000_000,
            token_a_amount: 900_000,
            token_b_amount: 1_800_000,
        })
    );
    // Withdrawing from the fee account itself is exempt.
    let r = withdraw_all(500_000_000, 1_000_000_000, 2_000_000, 4_000_000, 0, 0, true, &fees);
    assert_eq!(
        r,
        Ok(WithdrawAllResult {
            withdraw_fee: 0,
            burn_pool_token_amount: 500_000_000,
            token_a_amount: 1_000_000,
            token_b_amount: 2_000_000,
        })
    );
}

#[test]
fn withdraw_all_fails_on_broken_fee_schedule() {
    let mut fees = zero_fees();
    fees.owner_withdraw_fee_numerator = 1;
    fees.owner_withdraw_fee_denominator = 0;
    let r = withdraw_all(500_000_000, 1_000_000_000, 2_000_000, 4_000_000, 0, 0, false, &fees);
    assert_eq!(r, Err(Error::FeeCalculationFailure));
}

#[test]
fn withdraw_all_enforces_slippage_floors() {
    let r = withdraw_all(
        500_000_000,
        1_000_000_000,
        2_000_000,
        4_000_000,
        1_000_001,
        0,
        false,
        &zero_fees(),
    );
    assert_eq!(r, Err(Error::ExceededSlippage));
}

#[test]
fn withdraw_all_rejects_zero_payout_from_nonzero_reserve() {
    let r = withdraw_all(1, 1_000_000_000, 100, 100, 0, 0, false, &zero_fees());
    assert_eq!(r, Err(Error::ZeroTradingTokens));
}

#[test]
fn withdraw_single_perfect_square_scenario() {
    let r = withdraw_single(
        750_000,
        1_000_000_000,
        1_000_000,
        1_000_000,
        &TradeDirection::AtoB,
        false,
        &zero_fees(),
        500_000_000,
    );
    assert_eq!(
        r,
        Ok(WithdrawSingleResult { withdraw_fee: 0, burn_pool_token_amount: 500_000_000 })
    );
}

#[test]
fn withdraw_single_adds_the_withdraw_fee_to_the_budget() {
    let mut fees = zero_fees();
    fees.owner_withdraw_fee_numerator = 1;
    fees.owner_withdraw_fee_denominator = 10;
    let r = withdraw_single(
        750_000,
        1_000_000_000,
        1_000_000,
        1_000_000,
        &TradeDirection::AtoB,
        false,
        &fees,
        550_000_000,
    );
    assert_eq!(
        r,
        Ok(WithdrawSingleResult {
            withdraw_fee: 50_000_000,
            burn_pool_token_amount: 500_000_000,
        })
    );
    // The same withdrawal with a budget below shares plus fee fails.
    let r = withdraw_single(
        750_000,
        1_000_000_000,
        1_000_000,
        1_000_000,
        &TradeDirection::AtoB,
        false,
        &fees,
        549_999_999,
    );
    assert_eq!(r, Err(Error::ExceededSlippage));
}

#[test]
fn withdraw_single_rejects_zero_burn() {
    let r = withdraw_single(
        0,
        1_000_000_000,
        1_000_000,
        1_000_000,
        &TradeDirection::AtoB,
        false,
        &zero_fees(),
        100,
    );
    assert_eq!(r, Err(Error::ZeroTradingTokens));
}

#[test]
fn swap_zero_fee_scenario() {
    let r = swap(
        1_000,
        1_000_000,
        1_000_000,
        1_000_000_000,
        &TradeDirection::AtoB,
        &zero_fees(),
        999,
    );
    assert_eq!(
        r,
        Ok(SwapOutcome {
            source_transfer: 1_000,
            destination_transfer: 999,
            host_fee_mint: 0,
            pool_fee_mint: 0,
        })
    );
}

#[test]
fn swap_enforces_the_payout_floor() {
    let r = swap(
        1_000,
        1_000_000,
        1_000_000,
        1_000_000_000,
        &TradeDirection::AtoB,
        &zero_fees(),
        1_000,
    );
    assert_eq!(r, Err(Error::ExceededSlippage));
}

#[test]
fn swap_of_nothing_fails() {
    let r = swap(
        0,
        1_000_000,
        1_000_000,
        1_000_000_000,
        &TradeDirection::AtoB,
        &zero_fees(),
        0,
    );
    assert_eq!(r, Err(Error::ZeroTradingTokens));
}

#[test]
fn swap_mints_owner_fee_shares_and_splits_the_host_cut() {
    let mut fees = zero_fees();
    fees.trade_fee_numerator = 1;
    fees.trade_fee_denominator = 100;
    fees.owner_trade_fee_numerator = 1;
    fees.owner_trade_fee_denominator = 100;
    fees.host_fee_numerator = 1;
    fees.host_fee_denominator = 5;
    let r = swap(
        1_000,
        1_000_000,
        1_000_000,
        1_000_000_000,
        &TradeDirection::AtoB,
        &fees,
        900,
    )
    .unwrap();
    // The transfers follow exactly from the curve arithmetic.
    assert_eq!(r.source_transfer, 1_000);
    assert_eq!(r.destination_transfer, 979);
    // The 10-unit owner fee against the 1,001,000-unit post-swap source
    // reserve converts to roughly 5,000 shares of the billion outstanding,
    // one fifth of which goes to the host.
    let total_minted = r.host_fee_mint + r.pool_fee_mint;
    assert!(total_minted >= 4_900 && total_minted <= 5_100);
    assert_eq!(r.host_fee_mint, total_minted / 5);
    assert!(r.pool_fee_mint > 0);
}

use liquidity_curve::curve::{swap, ConstantProduct, RoundDirection, SwapResult, TradeDirection};
use liquidity_curve::error::Error;
use liquidity_curve::fees::Fees;

fn zero_fees() -> Fees {
    Fees {
        trade_fee_numerator: 0,
        trade_fee_denominator: 1,
        owner_trade_fee_numerator: 0,
        owner_trade_fee_denominator: 1,
        owner_withdraw_fee_numerator: 0,
        owner_withdraw_fee_denominator: 1,
        host_fee_numerator: 0,
        host_fee_denominator: 1,
    }
}

#[test]
fn validate_supply_rejects_empty_reserves() {
    let curve = ConstantProduct {};
    assert_eq!(curve.validate_supply(0, 100), Err(Error::EmptySupply));
    assert_eq!(curve.validate_supply(100, 0), Err(Error::EmptySupply));
    assert_eq!(curve.validate_supply(100, 100), Ok(()));
}

#[test]
fn new_pool_supply_is_fixed() {
    let curve = ConstantProduct {};
    assert_eq!(curve.new_pool_supply(), 1_000_000_000);
    assert!(curve.allows_deposits());
}

#[test]
fn shares_to_reserves_exact_floor() {
    let curve = ConstantProduct {};
    let r = curve.pool_tokens_to_trading_tokens(
        500_000_000,
        1_000_000_000,
        2_000_000,
        4_000_000,
        RoundDirection::Floor,
    );
    assert_eq!(r, Some((1_000_000, 2_000_000)));
}

#[test]
fn shares_to_reserves_ceiling_rounds_up_inexact_sides() {
    let curve = ConstantProduct {};
    // 1 share of 3 on reserves of 10: floor gives 3 with a remainder, so the
    // ceiling takes 4.
    let r = curve.pool_tokens_to_trading_tokens(1, 3, 10, 10, RoundDirection::Ceiling);
    assert_eq!(r, Some((4, 4)));
    // A floor amount of zero is never rounded up to a full token.
    let r = curve.pool_tokens_to_trading_tokens(1, 100, 10, 10, RoundDirection::Ceiling);
    assert_eq!(r, Some((0, 0)));
}

#[test]
fn shares_to_reserves_ceiling_never_below_floor() {
    let curve = ConstantProduct {};
    let cases: [(u128, u128, u128, u128); 4] = [
        (1, 3, 10, 10),
        (7, 13, 999, 1001),
        (500_000_000, 1_000_000_000, 2_000_000, 4_000_000),
        (123_456, 999_999, 31_337, 65_535),
    ];
    for (shares, supply, a, b) in cases {
        let floor = curve
            .pool_tokens_to_trading_tokens(shares, supply, a, b, RoundDirection::Floor)
            .unwrap();
        let ceiling = curve
            .pool_tokens_to_trading_tokens(shares, supply, a, b, RoundDirection::Ceiling)
            .unwrap();
        assert!(ceiling.0 >= floor.0);
        assert!(ceiling.1 >= floor.1);
    }
}

#[test]
fn shares_to_reserves_fails_on_zero_supply() {
    let curve = ConstantProduct {};
    assert_eq!(
        curve.pool_tokens_to_trading_tokens(1, 0, 10, 10, RoundDirection::Floor),
        None
    );
}

#[test]
fn swap_small_trade_against_large_pool() {
    // A 0.1% trade against a 1,000,000-unit pool slips by about one unit.
    let r = swap(1_000, 1_000_000, 1_000_000);
    assert_eq!(r, Some((1_000, 999)));
}

#[test]
fn swap_preserves_invariant() {
    let cases: [(u128, u128, u128); 4] = [
        (1_000, 1_000_000, 1_000_000),
        (1, 1_000_000, 1_000_000_000),
        (333_333, 1_000_003, 999_999),
        (u64::MAX as u128, u64::MAX as u128, u64::MAX as u128),
    ];
    for (amount, source, destination) in cases {
        let (consumed, delivered) = swap(amount, source, destination).unwrap();
        assert!(delivered > 0);
        assert!(delivered < destination);
        assert!(consumed <= amount);
        let old_k = source * destination;
        let new_k = (source + consumed) * (destination - delivered);
        assert!(new_k >= old_k);
    }
}

#[test]
fn swap_that_delivers_nothing_fails() {
    // Zero input leaves the reserves unchanged, and a zero payout is
    // rejected rather than returned.
    assert_eq!(swap(0, 1_000, 1_000), None);
    // One unit against a pool a million times deeper rounds to nothing.
    assert_eq!(swap(1, 1_000_000_000_000, 1), None);
}

#[test]
fn swap_fails_on_unrepresentable_invariant() {
    assert_eq!(swap(1, u128::MAX, 2), None);
}

#[test]
fn swap_with_fees_scenario() {
    let curve = ConstantProduct {};
    let mut fees = zero_fees();
    fees.trade_fee_numerator = 1;
    fees.trade_fee_denominator = 100;
    fees.owner_trade_fee_numerator = 1;
    fees.owner_trade_fee_denominator = 100;
    let r = curve.swap(1_000, 1_000_000, 1_000_000, &fees).unwrap();
    assert_eq!(
        r,
        SwapResult {
            new_swap_source_amount: 1_001_000,
            new_swap_destination_amount: 999_021,
            source_amount_swapped: 1_000,
            destination_amount_swapped: 979,
            trade_fee: 10,
            owner_fee: 10,
        }
    );
}

#[test]
fn swap_with_zero_fees_scenario() {
    let curve = ConstantProduct {};
    let r = curve.swap(1_000, 1_000_000, 1_000_000, &zero_fees()).unwrap();
    assert_eq!(
        r,
        SwapResult {
            new_swap_source_amount: 1_001_000,
            new_swap_destination_amount: 999_001,
            source_amount_swapped: 1_000,
            destination_amount_swapped: 999,
            trade_fee: 0,
            owner_fee: 0,
        }
    );
}

#[test]
fn deposit_single_sided_zero_input_mints_nothing() {
    let curve = ConstantProduct {};
    let r = curve.deposit_single_token_type(
        0,
        1_000_000,
        1_000_000,
        1_000_000_000,
        &TradeDirection::AtoB,
        &zero_fees(),
    );
    assert_eq!(r, Some(0));
}

#[test]
fn withdraw_single_sided_zero_output_burns_nothing() {
    let curve = ConstantProduct {};
    let r = curve.withdraw_single_token_type_exact_out(
        0,
        1_000_000,
        1_000_000,
        1_000_000_000,
        &TradeDirection::BtoA,
        &zero_fees(),
    );
    assert_eq!(r, Some(0));
}

#[test]
fn deposit_single_sided_perfect_square_scenario() {
    // Depositing 1.25 times the source reserve: sqrt(1 + 1.25) - 1 = 0.5, so
    // half the supply is minted.
    let curve = ConstantProduct {};
    let r = curve.deposit_single_token_type(
        1_250_000,
        1_000_000,
        1_000_000,
        1_000_000_000,
        &TradeDirection::AtoB,
        &zero_fees(),
    );
    assert_eq!(r, Some(500_000_000));
}

#[test]
fn withdraw_single_sided_perfect_square_scenario() {
    // Withdrawing three quarters of the reserve: 1 - sqrt(1 - 0.75) = 0.5, so
    // half the supply is burned.
    let curve = ConstantProduct {};
    let r = curve.withdraw_single_token_type_exact_out(
        750_000,
        1_000_000,
        1_000_000,
        1_000_000_000,
        &TradeDirection::AtoB,
        &zero_fees(),
    );
    assert_eq!(r, Some(500_000_000));
}

#[test]
fn withdraw_single_sided_fails_past_reserve() {
    // Withdrawing more than the reserve holds makes the ratio exceed one.
    let curve = ConstantProduct {};
    let r = curve.withdraw_single_token_type_exact_out(
        1_000_001,
        1_000_000,
        1_000_000,
        1_000_000_000,
        &TradeDirection::AtoB,
        &zero_fees(),
    );
    assert_eq!(r, None);
}

#[test]
fn single_sided_rounding_directions_differ_by_at_most_one() {
    // Doubling against the reserve prices at sqrt(2), which no whole share
    // count hits exactly, so the two rounding directions straddle it.
    let floor = liquidity_curve::curve::deposit_single_token_type(
        1_000_000,
        1_000_000,
        1_000_000,
        1_000_000_000,
        &TradeDirection::AtoB,
        RoundDirection::Floor,
    )
    .unwrap();
    let ceiling = liquidity_curve::curve::deposit_single_token_type(
        1_000_000,
        1_000_000,
        1_000_000,
        1_000_000_000,
        &TradeDirection::AtoB,
        RoundDirection::Ceiling,
    )
    .unwrap();
    assert!(ceiling >= floor);
    assert!(ceiling - floor <= 1);
    // sqrt(2) - 1 of a billion shares, to the sqrt approximation's accuracy.
    assert!(floor >= 414_200_000 && floor <= 414_230_000);
    let burn_floor = liquidity_curve::curve::withdraw_single_token_type_exact_out(
        750_000,
        1_000_000,
        1_000_000,
        1_000_000_000,
        &TradeDirection::AtoB,
        RoundDirection::Floor,
    )
    .unwrap();
    let burn_ceiling = liquidity_curve::curve::withdraw_single_token_type_exact_out(
        750_000,
        1_000_000,
        1_000_000,
        1_000_000_000,
        &TradeDirection::AtoB,
        RoundDirection::Ceiling,
    )
    .unwrap();
    assert!(burn_ceiling >= burn_floor);
    assert!(burn_ceiling - burn_floor <= 1);
}

#[test]
fn round_trip_never_profits_without_fees() {
    // Depositing X and then asking the exact same X back out must burn at
    // least the shares that the deposit minted.
    let curve = ConstantProduct {};
    let amounts: [u128; 4] = [1_000, 10_000, 123_457, 999_999];
    for x in amounts {
        let minted = curve
            .deposit_single_token_type(
                x,
                1_000_000,
                1_000_000,
                1_000_000_000,
                &TradeDirection::AtoB,
                &zero_fees(),
            )
            .unwrap();
        let burned = curve
            .withdraw_single_token_type_exact_out(
                x,
                1_000_000,
                1_000_000,
                1_000_000_000,
                &TradeDirection::AtoB,
                &zero_fees(),
            )
            .unwrap();
        assert!(burned >= minted);
    }
}

#[test]
fn round_trip_never_profits_with_fees() {
    let curve = ConstantProduct {};
    let mut fees = zero_fees();
    fees.trade_fee_numerator = 3;
    fees.trade_fee_denominator = 1_000;
    let minted = curve
        .deposit_single_token_type(
            50_000,
            1_000_000,
            1_000_000,
            1_000_000_000,
            &TradeDirection::AtoB,
            &fees,
        )
        .unwrap();
    let burned = curve
        .withdraw_single_token_type_exact_out(
            50_000,
            1_000_000,
            1_000_000,
            1_000_000_000,
            &TradeDirection::AtoB,
            &fees,
        )
        .unwrap();
    assert!(burned >= minted);
}

#[test]
fn trade_direction_selects_source_reserve() {
    // The two directions read different reserves, so an asymmetric pool
    // prices them differently.
    let curve = ConstantProduct {};
    let a_side = curve
        .deposit_single_token_type(
            100_000,
            1_000_000,
            4_000_000,
            1_000_000_000,
            &TradeDirection::AtoB,
            &zero_fees(),
        )
        .unwrap();
    let b_side = curve
        .deposit_single_token_type(
            100_000,
            1_000_000,
            4_000_000,
            1_000_000_000,
            &TradeDirection::BtoA,
            &zero_fees(),
        )
        .unwrap();
    assert!(a_side > b_side);
    assert!(a_side > 0 && b_side > 0);
}

#[test]
fn fee_functions_are_exact() {
    let mut fees = zero_fees();
    fees.trade_fee_numerator = 1;
    fees.trade_fee_denominator = 100;
    fees.owner_trade_fee_numerator = 2;
    fees.owner_trade_fee_denominator = 7;
    fees.owner_withdraw_fee_numerator = 1;
    fees.owner_withdraw_fee_denominator = 10;
    fees.host_fee_numerator = 1;
    fees.host_fee_denominator = 5;
    assert_eq!(fees.trading_fee(1_000), Some(10));
    assert_eq!(fees.trading_fee(99), Some(0));
    assert_eq!(fees.owner_trading_fee(700), Some(200));
    assert_eq!(fees.owner_withdraw_fee(500_000_000), Some(50_000_000));
    assert_eq!(fees.host_fee(1_000), Some(200));
}

#[test]
fn fee_with_zero_numerator_charges_nothing() {
    let fees = Fees {
        trade_fee_numerator: 0,
        trade_fee_denominator: 0,
        owner_trade_fee_numerator: 0,
        owner_trade_fee_denominator: 0,
        owner_withdraw_fee_numerator: 0,
        owner_withdraw_fee_denominator: 0,
        host_fee_numerator: 0,
        host_fee_denominator: 0,
    };
    assert_eq!(fees.trading_fee(u128::MAX), Some(0));
}

#[test]
fn fee_with_zero_denominator_fails() {
    let mut fees = zero_fees();
    fees.trade_fee_numerator = 1;
    fees.trade_fee_denominator = 0;
    assert_eq!(fees.trading_fee(1_000), None);
}

#[test]
fn fee_overflow_fails() {
    let mut fees = zero_fees();
    fees.trade_fee_numerator = 2;
    fees.trade_fee_denominator = 1;
    assert_eq!(fees.trading_fee(u128::MAX), None);
}

#[test]
fn validate_accepts_sane_fees_and_rejects_bad_ones() {
    let mut fees = zero_fees();
    fees.trade_fee_numerator = 25;
    fees.trade_fee_denominator = 10_000;
    assert_eq!(fees.validate(), Ok(()));
    fees.trade_fee_numerator = 2;
    fees.trade_fee_denominator = 1;
    assert_eq!(fees.validate(), Err(Error::FeeCalculationFailure));
    fees.trade_fee_numerator = 1;
    fees.trade_fee_denominator = 0;
    assert_eq!(fees.validate(), Err(Error::FeeCalculationFailure));
}

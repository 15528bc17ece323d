use vstd::prelude::*;

use spl_math::checked_ceil_div::CheckedCeilDiv;

use crate::error::Error;
use crate::fees::{spec_fee, Fees};
use crate::precise::{
    pn_add, pn_add_val, pn_ceiling, pn_ceiling_val, pn_div, pn_div_val, pn_floor, pn_from,
    pn_less_than_or_equal, pn_mul, pn_mul_val, pn_new, pn_sqrt, pn_sqrt_val, pn_sub, pn_sub_val,
    pn_to_imprecise, pn_value, PRECISE_HALF, PRECISE_ONE,
};
use spl_math::precise_number::PreciseNumber;

verus! {

/// Initial amount of pool shares minted when a pool is first funded,
/// hard-coded to something sensible given a maximum of u128.  The constant
/// must be identical across implementations to remain ledger-compatible.
pub const INITIAL_SWAP_POOL_AMOUNT: u128 = 1_000_000_000;

/// Which asset is given up (source) in a swap or single-sided action.
#[derive(Clone, Copy, Debug, PartialEq, Eq, Structural)]
pub enum TradeDirection {
    AtoB,
    BtoA,
}

/// Which way a non-exact integer result is rounded.  Policy: round in
/// whichever direction favors the pool, never the user.
#[derive(Clone, Copy, Debug, PartialEq, Eq, Structural)]
pub enum RoundDirection {
    Ceiling,
    Floor,
}

/// Encodes all results of swapping from a source token to a destination token.
#[derive(Debug, PartialEq, Eq, Structural)]
pub struct SwapResult {
    /// New amount of source token held by the pool.
    pub new_swap_source_amount: u128,
    /// New amount of destination token held by the pool.
    pub new_swap_destination_amount: u128,
    /// Amount of source token swapped (includes fees).
    pub source_amount_swapped: u128,
    /// Amount of destination token swapped.
    pub destination_amount_swapped: u128,
    /// Amount of source tokens going to pool holders.
    pub trade_fee: u128,
    /// Amount of source tokens going to the owner.
    pub owner_fee: u128,
}

/// The constant-product curve: the product of the two reserves never
/// decreases under any accepted operation.
pub struct ConstantProduct {}

/// What ceiling division returns: the quotient of `n / d` rounded up,
/// together with the smallest divisor that still yields that quotient, so
/// that quotient times divisor never falls below `n`.  Fails when the
/// divisor is zero or larger than the dividend.
pub open spec fn spec_ceil_div_parts(n: u128, d: u128) -> Option<(u128, u128)> {
    if d == 0 || n / d == 0 {
        None
    } else if n % d == 0 {
        Some((n / d, d))
    } else {
        let q = (n / d + 1) as u128;
        if n % q == 0 {
            Some((q, n / q))
        } else {
            Some((q, (n / q + 1) as u128))
        }
    }
}

/// Relies on spl_math::checked_ceil_div::CheckedCeilDiv for u128: divides
/// rounding the quotient up, then re-derives the smallest divisor that keeps
/// the product at or above the dividend; fails on a zero quotient.
#[verifier::external_body]
fn ceil_div_parts(n: u128, d: u128) -> (r: Option<(u128, u128)>)
    ensures
        r == spec_ceil_div_parts(n, d),
{
    n.checked_ceil_div(d)
}

/// The pair returned by ceiling division multiplies back to at least the
/// dividend, the adjusted divisor never grows, and the quotient is positive.
pub proof fn lemma_ceil_div_parts_bounds(n: u128, d: u128)
    requires
        spec_ceil_div_parts(n, d) is Some,
    ensures
        spec_ceil_div_parts(n, d) matches Some(parts) ==> {
            &&& parts.0 * parts.1 >= n
            &&& parts.1 <= d
            &&& parts.0 >= 1
        },
{
    let parts = spec_ceil_div_parts(n, d)->Some_0;
    let q = parts.0;
    let adj = parts.1;
    assert(d != 0 && n / d != 0);
    vstd::arithmetic::div_mod::lemma_fundamental_div_mod(n as int, d as int);
    let q0: int = n as int / d as int;
    if n % d == 0 {
        assert(q * adj >= n) by (nonlinear_arith)
            requires
                d > 0,
                q == q0,
                adj == d,
                n == d * q0 + n % d,
                n % d == 0,
        ;
    } else {
        // The division was inexact, so the divisor is at least two and the
        // bumped quotient still fits in u128.
        assert(d >= 2);
        assert(q0 + 1 <= u128::MAX) by (nonlinear_arith)
            requires
                d >= 2,
                n <= u128::MAX,
                n == d * q0 + n % d,
                0 <= n % d,
        ;
        assert(q == q0 + 1);
        assert(n < q * d) by (nonlinear_arith)
            requires
                d > 0,
                q == q0 + 1,
                n == d * q0 + n % d,
                n % d < d,
        ;
        vstd::arithmetic::div_mod::lemma_fundamental_div_mod(n as int, q as int);
        let p0: int = n as int / q as int;
        if n % q == 0 {
            assert(adj == p0);
            assert(q * adj == n) by (nonlinear_arith)
                requires
                    q > 0,
                    adj == p0,
                    n == q * p0 + n % q,
                    n % q == 0,
            ;
            assert(adj <= d) by (nonlinear_arith)
                requires
                    q > 0,
                    d > 0,
                    q * adj == n,
                    n < q * d,
            ;
        } else {
            assert(q >= 2);
            assert(p0 + 1 <= u128::MAX) by (nonlinear_arith)
                requires
                    q >= 2,
                    n <= u128::MAX,
                    n == q * p0 + n % q,
                    0 <= n % q,
            ;
            assert(adj == p0 + 1);
            assert(q * adj >= n) by (nonlinear_arith)
                requires
                    q > 0,
                    adj == p0 + 1,
                    n == q * p0 + n % q,
                    n % q < q,
            ;
            assert(q * (adj - 1) < n) by (nonlinear_arith)
                requires
                    q > 0,
                    adj == p0 + 1,
                    n == q * p0 + n % q,
                    n % q > 0,
            ;
            assert(adj <= d) by (nonlinear_arith)
                requires
                    q > 0,
                    d > 0,
                    q * (adj - 1) < n,
                    n < q * d,
            ;
        }
    }
}

/// Invariant non-decrease, no free lunch: a successful fee-agnostic swap
/// never shrinks the product of the reserves, delivers a positive amount
/// strictly below the destination reserve, and consumes no more than the
/// offered source amount.
pub proof fn lemma_swap_invariant(
    source_amount: u128,
    swap_source_amount: u128,
    swap_destination_amount: u128,
)
    requires
        spec_swap(source_amount, swap_source_amount, swap_destination_amount) is Some,
    ensures
        spec_swap(source_amount, swap_source_amount, swap_destination_amount) matches Some(amounts)
            ==> {
            &&& (swap_source_amount + amounts.0) * (swap_destination_amount - amounts.1)
                >= swap_source_amount * swap_destination_amount
            &&& 0 < amounts.1 < swap_destination_amount
            &&& amounts.0 <= source_amount
        },
{
    let k = (swap_source_amount * swap_destination_amount) as u128;
    let new_source = (swap_source_amount + source_amount) as u128;
    lemma_ceil_div_parts_bounds(k, new_source);
    let parts = spec_ceil_div_parts(k, new_source)->Some_0;
    let q = parts.0;
    let adj = parts.1;
    let amounts = spec_swap(source_amount, swap_source_amount, swap_destination_amount)->Some_0;
    assert(swap_source_amount + amounts.0 == adj);
    assert(swap_destination_amount - amounts.1 == q);
    assert(adj * q == q * adj) by (nonlinear_arith);
    assert((swap_source_amount + amounts.0) * (swap_destination_amount - amounts.1) >= k);
}

fn map_zero_to_none(x: u128) -> (r: Option<u128>)
    ensures
        r == (if x == 0 {
            None::<u128>
        } else {
            Some(x)
        }),
{
    if x == 0 {
        None
    } else {
        Some(x)
    }
}

/// What the fee-agnostic constant-product swap returns for a net source
/// amount: the gross source amount actually consumed and the destination
/// amount delivered, or `None` when the invariant or the new source reserve
/// cannot be represented, the invariant is smaller than the new source
/// reserve, or the trade would deliver nothing.
pub open spec fn spec_swap(
    source_amount: u128,
    swap_source_amount: u128,
    swap_destination_amount: u128,
) -> Option<(u128, u128)> {
    if swap_source_amount * swap_destination_amount > u128::MAX {
        None
    } else if swap_source_amount + source_amount > u128::MAX {
        None
    } else {
        let k = (swap_source_amount * swap_destination_amount) as u128;
        let new_source = (swap_source_amount + source_amount) as u128;
        match spec_ceil_div_parts(k, new_source) {
            None => None,
            Some(parts) => {
                let new_destination = parts.0;
                let adjusted_source = parts.1;
                if adjusted_source < swap_source_amount {
                    None
                } else if swap_destination_amount < new_destination {
                    None
                } else if swap_destination_amount == new_destination {
                    None
                } else {
                    Some(
                        (
                            (adjusted_source - swap_source_amount) as u128,
                            (swap_destination_amount - new_destination) as u128,
                        ),
                    )
                }
            },
        }
    }
}

/// The constant product swap calculation, factored out of its class for reuse.
///
/// On success the pair holds the source amount consumed (the caller's amount,
/// possibly reduced by the ceiling adjustment) and the destination amount
/// delivered.  The constant-product invariant never decreases, and a trade
/// that would deliver nothing fails instead of returning zero.
pub fn swap(
    source_amount: u128,
    swap_source_amount: u128,
    swap_destination_amount: u128,
) -> (r: Option<(u128, u128)>)
    ensures
        r == spec_swap(source_amount, swap_source_amount, swap_destination_amount),
        r matches Some(amounts) ==> (swap_source_amount + amounts.0) * (swap_destination_amount
            - amounts.1) >= swap_source_amount * swap_destination_amount,
        r matches Some(amounts) ==> 0 < amounts.1 < swap_destination_amount,
        r matches Some(amounts) ==> amounts.0 <= source_amount,
{
    proof {
        if spec_swap(source_amount, swap_source_amount, swap_destination_amount) is Some {
            lemma_swap_invariant(source_amount, swap_source_amount, swap_destination_amount);
        }
    }
    let k = match swap_source_amount.checked_mul(swap_destination_amount) {
        Some(v) => v,
        None => {
            return None;
        },
    };
    let new_swap_source_amount = match swap_source_amount.checked_add(source_amount) {
        Some(v) => v,
        None => {
            return None;
        },
    };
    let parts = match ceil_div_parts(k, new_swap_source_amount) {
        Some(v) => v,
        None => {
            return None;
        },
    };
    let (new_swap_destination_amount, new_swap_source_amount): (u128, u128) = parts;
    let source_amount_swapped = match new_swap_source_amount.checked_sub(swap_source_amount) {
        Some(v) => v,
        None => {
            return None;
        },
    };
    let delivered = match swap_destination_amount.checked_sub(new_swap_destination_amount) {
        Some(v) => v,
        None => {
            return None;
        },
    };
    let destination_amount_swapped = match map_zero_to_none(delivered) {
        Some(v) => v,
        None => {
            return None;
        },
    };
    Some((source_amount_swapped, destination_amount_swapped))
}

/// What one side of the share-to-reserve conversion returns before rounding:
/// `pool_tokens * reserve / supply`, rounded down, failing on an overflowing
/// product or a zero supply.
pub open spec fn spec_trading_tokens_floor(
    pool_tokens: u128,
    pool_token_supply: u128,
    reserve: u128,
) -> Option<u128> {
    if pool_tokens * reserve > u128::MAX {
        None
    } else if pool_token_supply == 0 {
        None
    } else {
        Some((pool_tokens * reserve) as u128 / pool_token_supply)
    }
}

/// What the dual-sided share-to-reserve conversion returns.  Under `Ceiling`
/// each side is rounded up only when the division was inexact and the floor
/// amount is already nonzero, so a near-zero entitlement is never rounded up
/// to a full token.
pub open spec fn spec_pool_tokens_to_trading_tokens(
    pool_tokens: u128,
    pool_token_supply: u128,
    swap_token_a_amount: u128,
    swap_token_b_amount: u128,
    round_direction: RoundDirection,
) -> Option<(u128, u128)> {
    match spec_trading_tokens_floor(pool_tokens, pool_token_supply, swap_token_a_amount) {
        None => None,
        Some(token_a_amount) => match spec_trading_tokens_floor(
            pool_tokens,
            pool_token_supply,
            swap_token_b_amount,
        ) {
            None => None,
            Some(token_b_amount) => match round_direction {
                RoundDirection::Floor => Some((token_a_amount, token_b_amount)),
                RoundDirection::Ceiling => {
                    let token_a_remainder = (pool_tokens * swap_token_a_amount) as u128
                        % pool_token_supply;
                    let token_b_remainder = (pool_tokens * swap_token_b_amount) as u128
                        % pool_token_supply;
                    let rounded_a = if token_a_remainder > 0 && token_a_amount > 0 {
                        (token_a_amount + 1) as u128
                    } else {
                        token_a_amount
                    };
                    let rounded_b = if token_b_remainder > 0 && token_b_amount > 0 {
                        (token_b_amount + 1) as u128
                    } else {
                        token_b_amount
                    };
                    Some((rounded_a, rounded_b))
                },
            },
        },
    }
}

/// An inexact division with a nonzero floor leaves the floor amount strictly
/// below the full product, so rounding it up stays within u128.
proof fn lemma_floor_amount_has_room(pool_tokens: u128, pool_token_supply: u128, reserve: u128)
    requires
        pool_token_supply > 0,
        pool_tokens * reserve <= u128::MAX,
        (pool_tokens * reserve) as u128 % pool_token_supply > 0,
    ensures
        (pool_tokens * reserve) as u128 / pool_token_supply < u128::MAX,
{
    let product = (pool_tokens * reserve) as u128;
    vstd::arithmetic::div_mod::lemma_fundamental_div_mod(product as int, pool_token_supply as int);
    assert(product / pool_token_supply < product) by (nonlinear_arith)
        requires
            pool_token_supply > 0,
            product == pool_token_supply * (product as int / pool_token_supply as int) + product
                % pool_token_supply,
            product % pool_token_supply > 0,
    ;
}

impl ConstantProduct {
    /// A pool may only be used once both reserves are funded: a zero reserve
    /// is rejected with `EmptySupply`.
    pub fn validate_supply(&self, token_a_amount: u64, token_b_amount: u64) -> (r: Result<
        (),
        Error,
    >)
        ensures
            r == (if token_a_amount == 0 || token_b_amount == 0 {
                Result::<(), Error>::Err(Error::EmptySupply)
            } else {
                Result::<(), Error>::Ok(())
            }),
    {
        if token_a_amount == 0 {
            return Err(Error::EmptySupply);
        }
        if token_b_amount == 0 {
            return Err(Error::EmptySupply);
        }
        Ok(())
    }

    /// The share supply minted when the pool is first funded.
    pub fn new_pool_supply(&self) -> (r: u128)
        ensures
            r == INITIAL_SWAP_POOL_AMOUNT,
    {
        INITIAL_SWAP_POOL_AMOUNT
    }

    /// This curve permits ongoing deposits after initialization.
    pub fn allows_deposits(&self) -> (r: bool)
        ensures
            r,
    {
        true
    }

    /// Get the amount of trading tokens for the given amount of pool tokens,
    /// provided the total trading tokens and supply of pool tokens: a simple
    /// ratio calculation on each side, rounded by `round_direction`.
    pub fn pool_tokens_to_trading_tokens(
        &self,
        pool_tokens: u128,
        pool_token_supply: u128,
        swap_token_a_amount: u128,
        swap_token_b_amount: u128,
        round_direction: RoundDirection,
    ) -> (r: Option<(u128, u128)>)
        ensures
            r == spec_pool_tokens_to_trading_tokens(
                pool_tokens,
                pool_token_supply,
                swap_token_a_amount,
                swap_token_b_amount,
                round_direction,
            ),
    {
        let product_a = match pool_tokens.checked_mul(swap_token_a_amount) {
            Some(v) => v,
            None => {
                return None;
            },
        };
        let mut token_a_amount = match product_a.checked_div(pool_token_supply) {
            Some(v) => v,
            None => {
                return None;
            },
        };
        let product_b = match pool_tokens.checked_mul(swap_token_b_amount) {
            Some(v) => v,
            None => {
                return None;
            },
        };
        let mut token_b_amount = match product_b.checked_div(pool_token_supply) {
            Some(v) => v,
            None => {
                return None;
            },
        };
        match round_direction {
            RoundDirection::Floor => Some((token_a_amount, token_b_amount)),
            RoundDirection::Ceiling => {
                let token_a_remainder = product_a % pool_token_supply;
                if token_a_remainder > 0 && token_a_amount > 0 {
                    proof {
                        lemma_floor_amount_has_room(
                            pool_tokens,
                            pool_token_supply,
                            swap_token_a_amount,
                        );
                    }
                    token_a_amount = token_a_amount + 1;
                }
                let token_b_remainder = product_b % pool_token_supply;
                if token_b_remainder > 0 && token_b_amount > 0 {
                    proof {
                        lemma_floor_amount_has_room(
                            pool_tokens,
                            pool_token_supply,
                            swap_token_b_amount,
                        );
                    }
                    token_b_amount = token_b_amount + 1;
                }
                Some((token_a_amount, token_b_amount))
            },
        }
    }
}

/// The reserve on the source side of a trade.
pub open spec fn spec_source_reserve(
    trade_direction: TradeDirection,
    swap_token_a_amount: u128,
    swap_token_b_amount: u128,
) -> u128 {
    match trade_direction {
        TradeDirection::AtoB => swap_token_a_amount,
        TradeDirection::BtoA => swap_token_b_amount,
    }
}

/// What narrowing a raw fixed-point share count to an integer returns: the
/// count rounded down or up to a whole number of shares, failing where the
/// rounded value does not fit in u128 (or, under `Ceiling`, past the 256-bit
/// range).
pub open spec fn spec_round_to_int(v: int, round_direction: RoundDirection) -> Option<u128> {
    match round_direction {
        RoundDirection::Floor => {
            let q = v / (PRECISE_ONE as int);
            if q <= u128::MAX {
                Some(q as u128)
            } else {
                None
            }
        },
        RoundDirection::Ceiling => {
            match pn_ceiling_val(v) {
                None => None,
                Some(c) => {
                    let q = c / (PRECISE_ONE as int);
                    if q <= u128::MAX {
                        Some(q as u128)
                    } else {
                        None
                    }
                },
            }
        },
    }
}

/// Rounds a raw fixed-point share count to a whole number of shares and
/// narrows it to u128, failing where it does not fit.
fn round_to_imprecise(pool_tokens: PreciseNumber, round_direction: RoundDirection) -> (r: Option<
    u128,
>)
    ensures
        r == spec_round_to_int(pn_value(pool_tokens) as int, round_direction),
{
    let ghost v: int = pn_value(pool_tokens) as int;
    let rounded = match round_direction {
        RoundDirection::Floor => pn_floor(&pool_tokens).unwrap(),
        RoundDirection::Ceiling => match pn_ceiling(&pool_tokens) {
            Some(c) => c,
            None => {
                return None;
            },
        },
    };
    let ghost q: int = pn_value(rounded) as int / (PRECISE_ONE as int);
    proof {
        assert(pn_value(rounded) == q * PRECISE_ONE) by {
            vstd::arithmetic::div_mod::lemma_fundamental_div_mod(
                pn_value(rounded) as int,
                PRECISE_ONE as int,
            );
            assert(pn_value(rounded) as int % (PRECISE_ONE as int) == 0) by (nonlinear_arith)
                requires
                    pn_value(rounded) == (v / (PRECISE_ONE as int)) * PRECISE_ONE || pn_value(
                        rounded,
                    ) == ((v + PRECISE_ONE - 1) / (PRECISE_ONE as int)) * PRECISE_ONE,
            ;
        }
        assert((q * PRECISE_ONE <= u128::MAX * PRECISE_ONE) == (q <= u128::MAX))
            by (nonlinear_arith);
        if round_direction is Floor {
            assert(q == v / (PRECISE_ONE as int)) by (nonlinear_arith)
                requires
                    pn_value(rounded) == (v / (PRECISE_ONE as int)) * PRECISE_ONE,
                    q == pn_value(rounded) as int / (PRECISE_ONE as int),
            ;
        } else {
            assert(q == (v + PRECISE_ONE - 1) / (PRECISE_ONE as int)) by (nonlinear_arith)
                requires
                    pn_value(rounded) == ((v + PRECISE_ONE - 1) / (PRECISE_ONE as int))
                        * PRECISE_ONE,
                    q == pn_value(rounded) as int / (PRECISE_ONE as int),
            ;
        }
    }
    let max_precise = pn_new(u128::MAX);
    if pn_less_than_or_equal(&rounded, &max_precise) {
        proof {
            vstd::arithmetic::div_mod::lemma_fundamental_div_mod_converse(
                q * PRECISE_ONE + PRECISE_HALF,
                PRECISE_ONE as int,
                q,
                PRECISE_HALF as int,
            );
        }
        pn_to_imprecise(&rounded)
    } else {
        None
    }
}

/// What the single-sided deposit formula returns: with `S` the source
/// reserve and `x` the (fee-net) deposit, the pool mints
/// `supply * (sqrt(1 + x/S) - 1)` shares, computed in fixed point and rounded
/// by `round_direction`; each fixed-point step fails exactly as the numeric
/// primitive does.
pub open spec fn spec_deposit_single_token_type(
    source_amount: u128,
    swap_source_amount: u128,
    pool_supply: u128,
    round_direction: RoundDirection,
) -> Option<u128> {
    let one = pn_from(1);
    match pn_div_val(pn_from(source_amount as int), pn_from(swap_source_amount as int)) {
        None => None,
        Some(ratio) => match pn_add_val(one, ratio) {
            None => None,
            Some(base) => match pn_sqrt_val(base) {
                None => None,
                Some(root_of_base) => match pn_sub_val(root_of_base, one) {
                    None => None,
                    Some(root) => match pn_mul_val(pn_from(pool_supply as int), root) {
                        None => None,
                        Some(pool_tokens) => spec_round_to_int(pool_tokens, round_direction),
                    },
                },
            },
        },
    }
}

/// What the single-sided exact-out withdrawal formula returns: with `S` the
/// reserve paying out and `x` the (fee-net) amount withdrawn, the pool burns
/// `supply * (1 - sqrt(1 - x/S))` shares, computed in fixed point and rounded
/// by `round_direction`.
pub open spec fn spec_withdraw_single_token_type_exact_out(
    source_amount: u128,
    swap_source_amount: u128,
    pool_supply: u128,
    round_direction: RoundDirection,
) -> Option<u128> {
    let one = pn_from(1);
    match pn_div_val(pn_from(source_amount as int), pn_from(swap_source_amount as int)) {
        None => None,
        Some(ratio) => match pn_sub_val(one, ratio) {
            None => None,
            Some(base) => match pn_sqrt_val(base) {
                None => None,
                Some(root_of_base) => match pn_sub_val(one, root_of_base) {
                    None => None,
                    Some(root) => match pn_mul_val(pn_from(pool_supply as int), root) {
                        None => None,
                        Some(pool_tokens) => spec_round_to_int(pool_tokens, round_direction),
                    },
                },
            },
        },
    }
}

/// Get the amount of pool tokens for the deposited amount of token A or B.
///
/// Uses the Balancer single-asset deposit formula for two tokens, each
/// weighted at one half.
pub fn deposit_single_token_type(
    source_amount: u128,
    swap_token_a_amount: u128,
    swap_token_b_amount: u128,
    pool_supply: u128,
    trade_direction: &TradeDirection,
    round_direction: RoundDirection,
) -> (r: Option<u128>)
    ensures
        r == spec_deposit_single_token_type(
            source_amount,
            spec_source_reserve(*trade_direction, swap_token_a_amount, swap_token_b_amount),
            pool_supply,
            round_direction,
        ),
{
    let swap_source_amount: u128 = match trade_direction {
        TradeDirection::AtoB => swap_token_a_amount,
        TradeDirection::BtoA => swap_token_b_amount,
    };
    let swap_source = pn_new(swap_source_amount);
    let source = pn_new(source_amount);
    let ratio = match pn_div(&source, &swap_source) {
        Some(v) => v,
        None => {
            return None;
        },
    };
    let one = pn_new(1);
    let base = match pn_add(&one, &ratio) {
        Some(v) => v,
        None => {
            return None;
        },
    };
    let root_of_base = match pn_sqrt(&base) {
        Some(v) => v,
        None => {
            return None;
        },
    };
    let root = match pn_sub(&root_of_base, &one) {
        Some(v) => v,
        None => {
            return None;
        },
    };
    let pool_supply_precise = pn_new(pool_supply);
    let pool_tokens = match pn_mul(&pool_supply_precise, &root) {
        Some(v) => v,
        None => {
            return None;
        },
    };
    round_to_imprecise(pool_tokens, round_direction)
}

/// Get the amount of pool tokens for the withdrawn amount of token A or B.
///
/// Uses the Balancer single-asset withdrawal formula for two tokens, each
/// weighted at one half.
pub fn withdraw_single_token_type_exact_out(
    source_amount: u128,
    swap_token_a_amount: u128,
    swap_token_b_amount: u128,
    pool_supply: u128,
    trade_direction: &TradeDirection,
    round_direction: RoundDirection,
) -> (r: Option<u128>)
    ensures
        r == spec_withdraw_single_token_type_exact_out(
            source_amount,
            spec_source_reserve(*trade_direction, swap_token_a_amount, swap_token_b_amount),
            pool_supply,
            round_direction,
        ),
{
    let swap_source_amount: u128 = match trade_direction {
        TradeDirection::AtoB => swap_token_a_amount,
        TradeDirection::BtoA => swap_token_b_amount,
    };
    let swap_source = pn_new(swap_source_amount);
    let source = pn_new(source_amount);
    let ratio = match pn_div(&source, &swap_source) {
        Some(v) => v,
        None => {
            return None;
        },
    };
    let one = pn_new(1);
    let base = match pn_sub(&one, &ratio) {
        Some(v) => v,
        None => {
            return None;
        },
    };
    let root_of_base = match pn_sqrt(&base) {
        Some(v) => v,
        None => {
            return None;
        },
    };
    let root = match pn_sub(&one, &root_of_base) {
        Some(v) => v,
        None => {
            return None;
        },
    };
    let pool_supply_precise = pn_new(pool_supply);
    let pool_tokens = match pn_mul(&pool_supply_precise, &root) {
        Some(v) => v,
        None => {
            return None;
        },
    };
    round_to_imprecise(pool_tokens, round_direction)
}

/// The base on which the trading fee of a single-sided action is charged:
/// half the amount, with a floor of one so that a tiny action cannot bypass
/// the fee.
pub open spec fn spec_half_fee_base(source_amount: u128) -> u128 {
    if source_amount / 2 == 0 {
        1u128
    } else {
        source_amount / 2
    }
}

/// What a fee-aware single-sided deposit returns: zero input mints zero
/// shares outright; otherwise the trading fee on half the amount is
/// subtracted and the deposit formula runs on the rest, rounding down.
pub open spec fn spec_deposit_single_with_fee(
    source_amount: u128,
    swap_source_amount: u128,
    pool_supply: u128,
    fees: Fees,
) -> Option<u128> {
    if source_amount == 0 {
        Some(0u128)
    } else {
        match spec_fee(
            spec_half_fee_base(source_amount),
            fees.trade_fee_numerator,
            fees.trade_fee_denominator,
        ) {
            None => None,
            Some(trade_fee) => {
                if source_amount < trade_fee {
                    None
                } else {
                    spec_deposit_single_token_type(
                        (source_amount - trade_fee) as u128,
                        swap_source_amount,
                        pool_supply,
                        RoundDirection::Floor,
                    )
                }
            },
        }
    }
}

/// What a fee-aware single-sided exact-out withdrawal returns: zero output
/// burns zero shares outright; otherwise the trading fee on half the amount
/// is subtracted and the withdrawal formula runs on the rest, rounding up.
pub open spec fn spec_withdraw_single_with_fee(
    source_amount: u128,
    swap_source_amount: u128,
    pool_supply: u128,
    fees: Fees,
) -> Option<u128> {
    if source_amount == 0 {
        Some(0u128)
    } else {
        match spec_fee(
            spec_half_fee_base(source_amount),
            fees.trade_fee_numerator,
            fees.trade_fee_denominator,
        ) {
            None => None,
            Some(trade_fee) => {
                if source_amount < trade_fee {
                    None
                } else {
                    spec_withdraw_single_token_type_exact_out(
                        (source_amount - trade_fee) as u128,
                        swap_source_amount,
                        pool_supply,
                        RoundDirection::Ceiling,
                    )
                }
            },
        }
    }
}

/// What the fee-aware swap returns: the trading and owner fees are debited
/// from the source amount, the fee-agnostic swap runs on the rest, and the
/// fees are re-added to the recorded source amount so that the new source
/// reserve reflects the full deposit.
pub open spec fn spec_swap_result(
    source_amount: u128,
    swap_source_amount: u128,
    swap_destination_amount: u128,
    fees: Fees,
) -> Option<SwapResult> {
    match spec_fee(source_amount, fees.trade_fee_numerator, fees.trade_fee_denominator) {
        None => None,
        Some(trade_fee) => match spec_fee(
            source_amount,
            fees.owner_trade_fee_numerator,
            fees.owner_trade_fee_denominator,
        ) {
            None => None,
            Some(owner_fee) => {
                if trade_fee + owner_fee > u128::MAX {
                    None
                } else {
                    let total_fees = (trade_fee + owner_fee) as u128;
                    if source_amount < total_fees {
                        None
                    } else {
                        match spec_swap(
                            (source_amount - total_fees) as u128,
                            swap_source_amount,
                            swap_destination_amount,
                        ) {
                            None => None,
                            Some(amounts) => {
                                if amounts.0 + total_fees > u128::MAX {
                                    None
                                } else {
                                    let source_amount_swapped = (amounts.0 + total_fees) as u128;
                                    if swap_source_amount + source_amount_swapped > u128::MAX {
                                        None
                                    } else if swap_destination_amount < amounts.1 {
                                        None
                                    } else {
                                        Some(
                                            SwapResult {
                                                new_swap_source_amount: (swap_source_amount
                                                    + source_amount_swapped) as u128,
                                                new_swap_destination_amount: (
                                                swap_destination_amount - amounts.1) as u128,
                                                source_amount_swapped,
                                                destination_amount_swapped: amounts.1,
                                                trade_fee,
                                                owner_fee,
                                            },
                                        )
                                    }
                                }
                            },
                        }
                    }
                }
            },
        },
    }
}

impl ConstantProduct {
    /// Get the amount of pool tokens for the deposited amount of token A or
    /// B, levying the trading fee on half the amount first and rounding the
    /// minted shares down.
    pub fn deposit_single_token_type(
        &self,
        source_amount: u128,
        swap_token_a_amount: u128,
        swap_token_b_amount: u128,
        pool_supply: u128,
        trade_direction: &TradeDirection,
        fees: &Fees,
    ) -> (r: Option<u128>)
        ensures
            r == spec_deposit_single_with_fee(
                source_amount,
                spec_source_reserve(*trade_direction, swap_token_a_amount, swap_token_b_amount),
                pool_supply,
                *fees,
            ),
            source_amount == 0 ==> r == Some(0u128),
    {
        if source_amount == 0 {
            return Some(0);
        }
        let half: u128 = source_amount / 2;
        let half_source_amount: u128 = if half < 1 {
            1
        } else {
            half
        };
        let trade_fee = match fees.trading_fee(half_source_amount) {
            Some(v) => v,
            None => {
                return None;
            },
        };
        let source_amount_post_fee = match source_amount.checked_sub(trade_fee) {
            Some(v) => v,
            None => {
                return None;
            },
        };
        deposit_single_token_type(
            source_amount_post_fee,
            swap_token_a_amount,
            swap_token_b_amount,
            pool_supply,
            trade_direction,
            RoundDirection::Floor,
        )
    }

    /// Get the amount of pool tokens to burn for the exact withdrawn amount
    /// of token A or B, levying the trading fee on half the amount first and
    /// rounding the burned shares up.
    pub fn withdraw_single_token_type_exact_out(
        &self,
        source_amount: u128,
        swap_token_a_amount: u128,
        swap_token_b_amount: u128,
        pool_supply: u128,
        trade_direction: &TradeDirection,
        fees: &Fees,
    ) -> (r: Option<u128>)
        ensures
            r == spec_withdraw_single_with_fee(
                source_amount,
                spec_source_reserve(*trade_direction, swap_token_a_amount, swap_token_b_amount),
                pool_supply,
                *fees,
            ),
            source_amount == 0 ==> r == Some(0u128),
    {
        if source_amount == 0 {
            return Some(0);
        }
        let half: u128 = source_amount / 2;
        let half_source_amount: u128 = if half < 1 {
            1
        } else {
            half
        };
        let trade_fee = match fees.trading_fee(half_source_amount) {
            Some(v) => v,
            None => {
                return None;
            },
        };
        let source_amount_post_fee = match source_amount.checked_sub(trade_fee) {
            Some(v) => v,
            None => {
                return None;
            },
        };
        withdraw_single_token_type_exact_out(
            source_amount_post_fee,
            swap_token_a_amount,
            swap_token_b_amount,
            pool_supply,
            trade_direction,
            RoundDirection::Ceiling,
        )
    }

    /// Swap `source_amount` of the source asset against the pool: fees are
    /// debited, the constant-product formula prices the rest, and the fees
    /// are re-added to the source amount recorded as swapped.  The product of
    /// the recorded new reserves never falls below the old product.
    pub fn swap(
        &self,
        source_amount: u128,
        swap_source_amount: u128,
        swap_destination_amount: u128,
        fees: &Fees,
    ) -> (r: Option<SwapResult>)
        ensures
            r == spec_swap_result(source_amount, swap_source_amount, swap_destination_amount, *fees),
            r matches Some(result) ==> result.new_swap_source_amount
                * result.new_swap_destination_amount >= swap_source_amount
                * swap_destination_amount,
    {
        let trade_fee = match fees.trading_fee(source_amount) {
            Some(v) => v,
            None => {
                return None;
            },
        };
        let owner_fee = match fees.owner_trading_fee(source_amount) {
            Some(v) => v,
            None => {
                return None;
            },
        };
        let total_fees = match trade_fee.checked_add(owner_fee) {
            Some(v) => v,
            None => {
                return None;
            },
        };
        let source_amount_less_fees = match source_amount.checked_sub(total_fees) {
            Some(v) => v,
            None => {
                return None;
            },
        };
        let amounts = match swap(
            source_amount_less_fees,
            swap_source_amount,
            swap_destination_amount,
        ) {
            Some(v) => v,
            None => {
                return None;
            },
        };
        let (net_source_swapped, destination_amount_swapped): (u128, u128) = amounts;
        let source_amount_swapped = match net_source_swapped.checked_add(total_fees) {
            Some(v) => v,
            None => {
                return None;
            },
        };
        let new_swap_source_amount = match swap_source_amount.checked_add(source_amount_swapped) {
            Some(v) => v,
            None => {
                return None;
            },
        };
        let new_swap_destination_amount = match swap_destination_amount.checked_sub(
            destination_amount_swapped,
        ) {
            Some(v) => v,
            None => {
                return None;
            },
        };
        proof {
            assert(new_swap_source_amount * new_swap_destination_amount >= swap_source_amount
                * swap_destination_amount) by (nonlinear_arith)
                requires
                    new_swap_source_amount >= swap_source_amount + net_source_swapped,
                    (swap_source_amount + net_source_swapped) * (swap_destination_amount
                        - destination_amount_swapped) >= swap_source_amount
                        * swap_destination_amount,
                    new_swap_destination_amount == swap_destination_amount
                        - destination_amount_swapped,
                    new_swap_destination_amount >= 0,
            ;
        }
        Some(
            SwapResult {
                new_swap_source_amount,
                new_swap_destination_amount,
                source_amount_swapped,
                destination_amount_swapped,
                trade_fee,
                owner_fee,
            },
        )
    }
}

/// Zero-input identities: a single-sided deposit or exact-out withdrawal of
/// nothing mints or burns nothing, for every reserve, supply and fee
/// schedule.
pub proof fn lemma_zero_input_identity(swap_source_amount: u128, pool_supply: u128, fees: Fees)
    ensures
        spec_deposit_single_with_fee(0, swap_source_amount, pool_supply, fees) == Some(0u128),
        spec_withdraw_single_with_fee(0, swap_source_amount, pool_supply, fees) == Some(0u128),
{
}

/// Rounding direction correctness: the share-to-reserve conversion under
/// `Ceiling` succeeds exactly when it does under `Floor`, and then returns at
/// least as much on each side.
pub proof fn lemma_ceiling_dominates_floor(
    pool_tokens: u128,
    pool_token_supply: u128,
    swap_token_a_amount: u128,
    swap_token_b_amount: u128,
)
    ensures
        ({
            let floor = spec_pool_tokens_to_trading_tokens(
                pool_tokens,
                pool_token_supply,
                swap_token_a_amount,
                swap_token_b_amount,
                RoundDirection::Floor,
            );
            let ceiling = spec_pool_tokens_to_trading_tokens(
                pool_tokens,
                pool_token_supply,
                swap_token_a_amount,
                swap_token_b_amount,
                RoundDirection::Ceiling,
            );
            &&& floor is Some <==> ceiling is Some
            &&& (floor is Some ==> ceiling->Some_0.0 >= floor->Some_0.0)
            &&& (floor is Some ==> ceiling->Some_0.1 >= floor->Some_0.1)
        }),
{
    let floor = spec_pool_tokens_to_trading_tokens(
        pool_tokens,
        pool_token_supply,
        swap_token_a_amount,
        swap_token_b_amount,
        RoundDirection::Floor,
    );
    if floor is Some {
        if (pool_tokens * swap_token_a_amount) as u128 % pool_token_supply > 0
            && floor->Some_0.0 > 0 {
            lemma_floor_amount_has_room(pool_tokens, pool_token_supply, swap_token_a_amount);
        }
        if (pool_tokens * swap_token_b_amount) as u128 % pool_token_supply > 0
            && floor->Some_0.1 > 0 {
            lemma_floor_amount_has_room(pool_tokens, pool_token_supply, swap_token_b_amount);
        }
    }
}

} // verus!

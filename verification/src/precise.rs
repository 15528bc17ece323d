use vstd::prelude::*;

use spl_math::precise_number::PreciseNumber;

verus! {

/// The fixed-point scale of a `PreciseNumber`: it stores `value / 10^12` in a
/// 256-bit unsigned integer.
pub const PRECISE_ONE: u128 = 1_000_000_000_000;

/// Correction added before a truncating division so that multiplication,
/// division and narrowing round to the nearest representable value.
pub const PRECISE_HALF: u128 = 500_000_000_000;

/// The largest value a 256-bit unsigned integer can hold.
pub open spec fn u256_max() -> int {
    0xffffffffffffffffffffffffffffffffffffffffffffffffffffffffffffffffint
}

/// The raw 256-bit value stored inside a `PreciseNumber`; the number it
/// denotes is this value divided by `PRECISE_ONE`.
pub uninterp spec fn pn_value(p: PreciseNumber) -> nat;

/// The raw value that `PreciseNumber::sqrt` computes for a given raw input
/// value, or `None` where it fails.  The algorithm is a deterministic
/// fixed-point Newton iteration, so the result is a function of the input
/// value alone; no closed form is claimed for it.
pub uninterp spec fn pn_sqrt_val(v: int) -> Option<int>;

/// The raw contents of an optional `PreciseNumber`.
pub open spec fn pn_opt(r: Option<PreciseNumber>) -> Option<int> {
    match r {
        Some(p) => Some(pn_value(p) as int),
        None => None,
    }
}

/// The raw value that represents the integer `x`.
pub open spec fn pn_from(x: int) -> int {
    x * PRECISE_ONE
}

/// What fixed-point addition returns: exact, failing only past the 256-bit
/// range.
pub open spec fn pn_add_val(a: int, b: int) -> Option<int> {
    if a + b <= u256_max() {
        Some(a + b)
    } else {
        None
    }
}

/// What fixed-point subtraction returns: exact, failing on underflow.
pub open spec fn pn_sub_val(a: int, b: int) -> Option<int> {
    if b <= a {
        Some(a - b)
    } else {
        None
    }
}

/// What fixed-point multiplication returns: the product rescaled by
/// `PRECISE_ONE`, rounded to nearest; when the raw product exceeds the
/// 256-bit range, the larger operand is rescaled (rounding down) before the
/// product is retried.
pub open spec fn pn_mul_val(a: int, b: int) -> Option<int> {
    if a * b <= u256_max() {
        if a * b + PRECISE_HALF <= u256_max() {
            Some((a * b + PRECISE_HALF) / (PRECISE_ONE as int))
        } else {
            None
        }
    } else {
        let hi = if a >= b { a } else { b };
        let lo = if a >= b { b } else { a };
        if (hi / (PRECISE_ONE as int)) * lo <= u256_max() {
            Some((hi / (PRECISE_ONE as int)) * lo)
        } else {
            None
        }
    }
}

/// What fixed-point division returns: the quotient rescaled by
/// `PRECISE_ONE`, rounded to nearest; when rescaling the dividend exceeds the
/// 256-bit range, the quotient is taken first and rescaled afterwards.
pub open spec fn pn_div_val(a: int, b: int) -> Option<int> {
    if b == 0 {
        None
    } else if a * PRECISE_ONE <= u256_max() {
        if a * PRECISE_ONE + PRECISE_HALF <= u256_max() {
            Some((a * PRECISE_ONE + PRECISE_HALF) / b)
        } else {
            None
        }
    } else {
        if a + PRECISE_HALF <= u256_max() {
            if ((a + PRECISE_HALF) / b) * PRECISE_ONE <= u256_max() {
                Some(((a + PRECISE_HALF) / b) * PRECISE_ONE)
            } else {
                None
            }
        } else {
            None
        }
    }
}

/// What flooring to a whole number returns: the raw value rounded down to a
/// multiple of `PRECISE_ONE`.  It never fails.
pub open spec fn pn_floor_val(v: int) -> int {
    (v / (PRECISE_ONE as int)) * PRECISE_ONE
}

/// What ceiling to a whole number returns: the raw value rounded up to a
/// multiple of `PRECISE_ONE`, failing only past the 256-bit range.
pub open spec fn pn_ceiling_val(v: int) -> Option<int> {
    if v + PRECISE_ONE - 1 <= u256_max() {
        Some(((v + PRECISE_ONE - 1) / (PRECISE_ONE as int)) * PRECISE_ONE)
    } else {
        None
    }
}

/// Declares spl_math::precise_number::PreciseNumber, the fixed-point type
/// the square-root formulas run on.  Its contents are opaque here and are
/// spoken of only through `pn_value`.
#[verifier::external_type_specification]
#[verifier::external_body]
pub struct ExPreciseNumber(PreciseNumber);

/// Relies on spl_math::precise_number::PreciseNumber::new: it stores
/// `value * 10^12`, which fits in 256 bits for every u128 input.
#[verifier::external_body]
pub(crate) fn pn_new(x: u128) -> (r: PreciseNumber)
    ensures
        pn_value(r) == pn_from(x as int),
{
    PreciseNumber::new(x).unwrap()
}

/// Relies on spl_math::precise_number::PreciseNumber::checked_add: exact
/// addition of the raw values, checked against the 256-bit range.
#[verifier::external_body]
pub(crate) fn pn_add(a: &PreciseNumber, b: &PreciseNumber) -> (r: Option<PreciseNumber>)
    ensures
        pn_opt(r) == pn_add_val(pn_value(*a) as int, pn_value(*b) as int),
{
    a.checked_add(b)
}

/// Relies on spl_math::precise_number::PreciseNumber::checked_sub: exact
/// subtraction of the raw values, failing on underflow.
#[verifier::external_body]
pub(crate) fn pn_sub(a: &PreciseNumber, b: &PreciseNumber) -> (r: Option<PreciseNumber>)
    ensures
        pn_opt(r) == pn_sub_val(pn_value(*a) as int, pn_value(*b) as int),
{
    a.checked_sub(b)
}

/// Relies on spl_math::precise_number::PreciseNumber::checked_mul: the raw
/// product rescaled by `10^12`, rounded to nearest, with a down-scaling
/// fallback when the product exceeds 256 bits.
#[verifier::external_body]
pub(crate) fn pn_mul(a: &PreciseNumber, b: &PreciseNumber) -> (r: Option<PreciseNumber>)
    ensures
        pn_opt(r) == pn_mul_val(pn_value(*a) as int, pn_value(*b) as int),
{
    a.checked_mul(b)
}

/// Relies on spl_math::precise_number::PreciseNumber::checked_div: the raw
/// quotient rescaled by `10^12`, rounded to nearest, with a fallback that
/// rescales after dividing when the dividend exceeds 256 bits.
#[verifier::external_body]
pub(crate) fn pn_div(a: &PreciseNumber, b: &PreciseNumber) -> (r: Option<PreciseNumber>)
    ensures
        pn_opt(r) == pn_div_val(pn_value(*a) as int, pn_value(*b) as int),
{
    a.checked_div(b)
}

/// Relies on spl_math::precise_number::PreciseNumber::sqrt: a deterministic
/// Newton approximation of the square root, named by `pn_sqrt_val`.
#[verifier::external_body]
pub(crate) fn pn_sqrt(a: &PreciseNumber) -> (r: Option<PreciseNumber>)
    ensures
        pn_opt(r) == pn_sqrt_val(pn_value(*a) as int),
{
    a.sqrt()
}

/// Relies on spl_math::precise_number::PreciseNumber::floor: rounds the raw
/// value down to a multiple of `10^12`; never fails, since the result does
/// not exceed the input.
#[verifier::external_body]
pub(crate) fn pn_floor(a: &PreciseNumber) -> (r: Option<PreciseNumber>)
    ensures
        pn_opt(r) == Some(pn_floor_val(pn_value(*a) as int)),
{
    a.floor()
}

/// Relies on spl_math::precise_number::PreciseNumber::ceiling: rounds the raw
/// value up to a multiple of `10^12`, checked against the 256-bit range.
#[verifier::external_body]
pub(crate) fn pn_ceiling(a: &PreciseNumber) -> (r: Option<PreciseNumber>)
    ensures
        pn_opt(r) == pn_ceiling_val(pn_value(*a) as int),
{
    a.ceiling()
}

/// Relies on spl_math::precise_number::PreciseNumber::to_imprecise: divides
/// the raw value by `10^12`, rounding to nearest.  The bound keeps the
/// narrowed result inside u128, where the conversion cannot fail.
#[verifier::external_body]
pub(crate) fn pn_to_imprecise(p: &PreciseNumber) -> (r: Option<u128>)
    requires
        pn_value(*p) <= u128::MAX * PRECISE_ONE,
    ensures
        r == Some((((pn_value(*p) + PRECISE_HALF) / (PRECISE_ONE as int))) as u128),
{
    p.to_imprecise()
}

/// Relies on spl_math::precise_number::PreciseNumber::less_than_or_equal:
/// compares the raw values.
#[verifier::external_body]
pub(crate) fn pn_less_than_or_equal(a: &PreciseNumber, b: &PreciseNumber) -> (r: bool)
    ensures
        r == (pn_value(*a) <= pn_value(*b)),
{
    a.less_than_or_equal(b)
}

} // verus!

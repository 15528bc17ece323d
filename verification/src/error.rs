use vstd::prelude::*;

verus! {

/// Failure taxonomy of the curve engine.  Every failure is a terminal
/// rejection of the single requested action; no partial state exists.
#[derive(Clone, Copy, Debug, PartialEq, Eq, Structural)]
pub enum Error {
    /// A reserve is zero at a point that requires nonzero reserves.
    EmptySupply,
    /// A computed exchange or issuance amount rounds to zero.
    ZeroTradingTokens,
    /// A checked arithmetic step overflowed, underflowed or divided by zero.
    CalculationFailure,
    /// A fee computation failed or could not be subtracted without underflow.
    FeeCalculationFailure,
    /// A computed amount violates a caller-specified bound.
    ExceededSlippage,
    /// A value does not fit in the requested integer width.
    ConversionFailure,
}

} // verus!

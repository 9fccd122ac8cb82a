use vstd::prelude::*;

verus! {

/// The reasons an operation on a curve can be refused.  Every failure is
/// reported synchronously and leaves the curve state untouched;
/// authorization and identity failures are the custody layer's concern and
/// have no representative here.
#[derive(Clone, Copy, Debug, PartialEq, Eq)]
pub enum ErrorsCode {
    /// A buy or sell was attempted after the curve graduated.
    CurveFull,
    /// A withdrawal was attempted before the curve graduated.
    NotGraduatedYet,
    /// The computed output fell below the caller's minimum-output bound.
    SlippageExceeded,
    /// A sell was submitted with a zero minimum-output bound.
    InvalidMinOutput,
    /// The curve math would have produced a negative reserve; this signals a
    /// degenerate virtual-reserve state and is checked defensively.
    ArithmeticUnderflow,
    /// A reserve would have exceeded the largest representable quantity.
    ArithmeticOverflow,
    /// A real reserve cannot cover a computed payout; the virtual and real
    /// ledgers have drifted apart and the curve is no longer trustworthy.
    InsufficientReserve,
}

} // verus!

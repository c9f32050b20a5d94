use vstd::prelude::*;

verus! {

/// Failure of an overflow-checked arithmetic primitive.
#[derive(Clone, Copy, Debug, PartialEq, Eq, Structural)]
pub enum MathError {
    /// The exact result does not fit the output width.
    Overflow,
    /// The denominator was zero.
    DivisionByZero,
}

/// Failure of the constant-product curve computation.
#[derive(Clone, Copy, Debug, PartialEq, Eq, Structural)]
pub enum CurveError {
    /// An intermediate value does not fit its width.
    Overflow,
    /// A denominator was zero.
    DivisionByZero,
    /// One of the two reserves is empty.
    EmptyReserves,
    /// The trade is degenerate: it would pay out nothing.
    ZeroOutput,
}

/// Reason a swap request is rejected.
#[derive(Clone, Copy, Debug, PartialEq, Eq, Structural)]
pub enum SwapError {
    /// The input amount is zero, or the trade would move nothing.
    InvalidAmount,
    /// The pool is administratively halted.
    PoolLocked,
    /// Either reserve of the pool is empty.
    NoLiquidityInPool,
    /// The caller cannot fund the input amount.
    InsufficientBalance,
    /// The opposite-side reserve is below the requested minimum output.
    LiquidityLessThanMinimum,
    /// The computed output is below the caller's minimum-output bound.
    SlippageExceeded,
    /// The curve computation itself failed; surfaced unmodified.
    Curve(CurveError),
}

} // verus!

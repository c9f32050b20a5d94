use vstd::prelude::*;

use crate::errors::SwapError;
use crate::state::InputSide;
use crate::state::Pool;
use crate::state::SwapRequest;

verus! {

/// The precondition checks, in order, each failing with its own reason:
/// non-zero input, pool unlocked, both reserves non-empty, caller can fund
/// the input, and the opposite reserve covers the requested minimum.
/// On success: the side being deposited, for downstream routing.
pub open spec fn spec_validate(pool: Pool, request: SwapRequest, caller_balance_in: u64) -> Result<
    InputSide,
    SwapError,
> {
    if request.input_amount == 0 {
        Err(SwapError::InvalidAmount)
    } else if pool.locked {
        Err(SwapError::PoolLocked)
    } else if pool.reserve_x == 0 || pool.reserve_y == 0 {
        Err(SwapError::NoLiquidityInPool)
    } else if caller_balance_in < request.input_amount {
        Err(SwapError::InsufficientBalance)
    } else if pool.spec_reserve_out(request.input_side) < request.min_output_amount {
        Err(SwapError::LiquidityLessThanMinimum)
    } else {
        Ok(request.input_side)
    }
}

/// Checks every precondition of a swap against the pool state and the
/// caller's input-side balance. Reads only; performs no mutation.
pub fn validate_preconditions(pool: &Pool, request: &SwapRequest, caller_balance_in: u64) -> (r:
    Result<InputSide, SwapError>)
    ensures
        r == spec_validate(*pool, *request, caller_balance_in),
{
    if request.input_amount == 0 {
        return Err(SwapError::InvalidAmount);
    }
    if pool.locked {
        return Err(SwapError::PoolLocked);
    }
    if pool.reserve_x == 0 || pool.reserve_y == 0 {
        return Err(SwapError::NoLiquidityInPool);
    }
    if caller_balance_in < request.input_amount {
        return Err(SwapError::InsufficientBalance);
    }
    if pool.reserve_out(request.input_side) < request.min_output_amount {
        return Err(SwapError::LiquidityLessThanMinimum);
    }
    Ok(request.input_side)
}

} // verus!

use vstd::prelude::*;

use crate::curve::compute_swap;
use crate::curve::spec_compute_swap;
use crate::errors::SwapError;
use crate::state::Pool;
use crate::state::SwapOutcome;
use crate::state::SwapRequest;
use crate::validate::spec_validate;
use crate::validate::validate_preconditions;

verus! {

/// The full behaviour of a swap: validation, then the curve, then the two
/// post-conditions only the curve's result can settle — both amounts
/// non-zero, and the output at least the caller's minimum.
pub open spec fn spec_execute_swap(
    pool: Pool,
    request: SwapRequest,
    caller_balance_in: u64,
) -> Result<SwapOutcome, SwapError> {
    match spec_validate(pool, request, caller_balance_in) {
        Err(e) => Err(e),
        Ok(side) => match spec_compute_swap(
            pool.spec_reserve_in(side),
            pool.spec_reserve_out(side),
            pool.fee_bps,
            request.input_amount,
        ) {
            Err(curve_error) => Err(SwapError::Curve(curve_error)),
            Ok(outcome) => {
                if outcome.deposit_amount == 0 || outcome.withdraw_amount == 0 {
                    Err(SwapError::InvalidAmount)
                } else if outcome.withdraw_amount < request.min_output_amount {
                    Err(SwapError::SlippageExceeded)
                } else {
                    Ok(outcome)
                }
            },
        },
    }
}

/// The sole entry point of the engine: validate, run the curve, enforce the
/// post-curve checks, and return the amounts the ledger must move — the
/// deposit (caller to pool, fee included) before the withdrawal (pool to
/// caller). Pure: the ledger transfers themselves are the collaborator's.
pub fn execute_swap(pool: &Pool, request: &SwapRequest, caller_balance_in: u64) -> (r: Result<
    SwapOutcome,
    SwapError,
>)
    requires
        pool.wf(),
    ensures
        r == spec_execute_swap(*pool, *request, caller_balance_in),
{
    let side = match validate_preconditions(pool, request, caller_balance_in) {
        Ok(side) => side,
        Err(e) => {
            return Err(e);
        },
    };
    let outcome = match compute_swap(
        pool.reserve_in(side),
        pool.reserve_out(side),
        pool.fee_bps,
        request.input_amount,
    ) {
        Ok(outcome) => outcome,
        Err(curve_error) => {
            return Err(SwapError::Curve(curve_error));
        },
    };
    if outcome.deposit_amount == 0 || outcome.withdraw_amount == 0 {
        return Err(SwapError::InvalidAmount);
    }
    if outcome.withdraw_amount < request.min_output_amount {
        return Err(SwapError::SlippageExceeded);
    }
    Ok(outcome)
}

} // verus!

use vstd::arithmetic::div_mod::lemma_div_is_ordered_by_denominator;
use vstd::arithmetic::div_mod::lemma_div_of0;
use vstd::arithmetic::div_mod::lemma_fundamental_div_mod;
use vstd::arithmetic::div_mod::lemma_mod_bound;
use vstd::arithmetic::mul::lemma_mul_nonnegative;
use vstd::prelude::*;

use crate::curve::lemma_curve_quotient_bounds;
use crate::curve::lemma_fee_amount_bounds;
use crate::curve::spec_amount_out;
use crate::curve::spec_compute_swap;
use crate::curve::spec_curve_denominator;
use crate::curve::spec_curve_quotient;
use crate::curve::spec_curve_remainder;
use crate::curve::spec_fee_amount;
use crate::errors::SwapError;
use crate::orchestrator::spec_execute_swap;
use crate::state::BPS_DENOMINATOR;
use crate::state::Pool;
use crate::state::SwapOutcome;
use crate::state::SwapRequest;
use crate::validate::spec_validate;

verus! {

/// Invariant growth: after an accepted swap the pool holds the full input
/// (fee included) on one side and has paid the computed output from the
/// other, and the product of the reserves does not decrease — provided the
/// fee's contribution to the product covers what the floored quotient
/// discarded. Without that proviso the product can fall short by less than
/// one denominator unit (see `lemma_product_decrease_bounded`): with
/// reserves 1000/1000, fee 30 bps and input 100 the fee rounds to zero and
/// the product drops from 1000000 to 999900.
pub proof fn lemma_invariant_growth(reserve_in: u64, reserve_out: u64, fee_bps: u16, amount_in: u64)
    requires
        fee_bps <= BPS_DENOMINATOR,
        spec_compute_swap(reserve_in, reserve_out, fee_bps, amount_in) is Ok,
        spec_fee_amount(amount_in, fee_bps) * spec_curve_quotient(
            reserve_in,
            reserve_out,
            fee_bps,
            amount_in,
        ) >= spec_curve_remainder(reserve_in, reserve_out, fee_bps, amount_in),
    ensures
        (reserve_in + amount_in) * (reserve_out - spec_amount_out(
            reserve_in,
            reserve_out,
            fee_bps,
            amount_in,
        )) >= reserve_in * reserve_out,
{
    let fee = spec_fee_amount(amount_in, fee_bps);
    let d = spec_curve_denominator(reserve_in, fee_bps, amount_in);
    let q = spec_curve_quotient(reserve_in, reserve_out, fee_bps, amount_in);
    let rem = spec_curve_remainder(reserve_in, reserve_out, fee_bps, amount_in);
    lemma_fee_amount_bounds(amount_in, fee_bps);
    lemma_fundamental_div_mod(reserve_in * reserve_out, d);
    assert(reserve_out - spec_amount_out(reserve_in, reserve_out, fee_bps, amount_in) == q);
    assert((reserve_in + amount_in) * q == d * q + fee * q) by (nonlinear_arith)
        requires
            d == reserve_in + amount_in - fee,
    ;
    assert(reserve_in * reserve_out == d * q + rem);
}

/// Rounding loss is bounded: even where the fee does not cover the floored
/// remainder, the product of the reserves after an accepted swap falls
/// short of the old product by strictly less than one unit of the curve
/// denominator.
pub proof fn lemma_product_decrease_bounded(
    reserve_in: u64,
    reserve_out: u64,
    fee_bps: u16,
    amount_in: u64,
)
    requires
        fee_bps <= BPS_DENOMINATOR,
        spec_compute_swap(reserve_in, reserve_out, fee_bps, amount_in) is Ok,
    ensures
        (reserve_in + amount_in) * (reserve_out - spec_amount_out(
            reserve_in,
            reserve_out,
            fee_bps,
            amount_in,
        )) > reserve_in * reserve_out - spec_curve_denominator(reserve_in, fee_bps, amount_in),
{
    let fee = spec_fee_amount(amount_in, fee_bps);
    let d = spec_curve_denominator(reserve_in, fee_bps, amount_in);
    let q = spec_curve_quotient(reserve_in, reserve_out, fee_bps, amount_in);
    let rem = spec_curve_remainder(reserve_in, reserve_out, fee_bps, amount_in);
    lemma_fee_amount_bounds(amount_in, fee_bps);
    lemma_curve_quotient_bounds(reserve_in, reserve_out, fee_bps, amount_in);
    lemma_fundamental_div_mod(reserve_in * reserve_out, d);
    lemma_mod_bound(reserve_in * reserve_out, d);
    lemma_mul_nonnegative(fee, q);
    assert((reserve_in + amount_in) * q == d * q + fee * q) by (nonlinear_arith)
        requires
            d == reserve_in + amount_in - fee,
    ;
}

/// No free lunch, monotone form: for every fee rate the output of a swap is
/// at most the output the same reserves and input would give with no fee.
/// Strictness can fail where the fee rounds below the curve's granularity:
/// with reserves 1000/1000, fee 30 bps and input 100 the fee amount floors
/// to zero and the two outputs are equal; `lemma_fee_strictly_reduces_output`
/// covers exactly the remaining inputs.
pub proof fn lemma_fee_reduces_output(
    reserve_in: u64,
    reserve_out: u64,
    fee_bps: u16,
    amount_in: u64,
)
    requires
        fee_bps <= BPS_DENOMINATOR,
        reserve_in > 0,
    ensures
        spec_amount_out(reserve_in, reserve_out, fee_bps, amount_in) <= spec_amount_out(
            reserve_in,
            reserve_out,
            0,
            amount_in,
        ),
{
    lemma_fee_amount_bounds(amount_in, fee_bps);
    lemma_div_of0(BPS_DENOMINATOR as int);
    assert(spec_fee_amount(amount_in, 0) == 0);
    let d_fee = spec_curve_denominator(reserve_in, fee_bps, amount_in);
    let d_zero = spec_curve_denominator(reserve_in, 0, amount_in);
    lemma_mul_nonnegative(reserve_in as int, reserve_out as int);
    lemma_div_is_ordered_by_denominator(reserve_in * reserve_out, d_fee, d_zero);
}

/// No free lunch, strict form: wherever a positive fee rate changes the
/// curve quotient at all, the output is strictly below the zero-fee output
/// for the same reserves and input.
pub proof fn lemma_fee_strictly_reduces_output(
    reserve_in: u64,
    reserve_out: u64,
    fee_bps: u16,
    amount_in: u64,
)
    requires
        0 < fee_bps <= BPS_DENOMINATOR,
        reserve_in > 0,
        spec_curve_quotient(reserve_in, reserve_out, fee_bps, amount_in) != spec_curve_quotient(
            reserve_in,
            reserve_out,
            0,
            amount_in,
        ),
    ensures
        spec_amount_out(reserve_in, reserve_out, fee_bps, amount_in) < spec_amount_out(
            reserve_in,
            reserve_out,
            0,
            amount_in,
        ),
{
    lemma_fee_reduces_output(reserve_in, reserve_out, fee_bps, amount_in);
}

/// Slippage enforcement: whenever every precondition holds and the curve
/// accepts the trade but its output is below the caller's minimum, the swap
/// fails with `SlippageExceeded` — it is never rounded up to the minimum.
pub proof fn lemma_slippage_enforced(pool: Pool, request: SwapRequest, caller_balance_in: u64)
    requires
        pool.wf(),
        spec_validate(pool, request, caller_balance_in) is Ok,
        spec_compute_swap(
            pool.spec_reserve_in(request.input_side),
            pool.spec_reserve_out(request.input_side),
            pool.fee_bps,
            request.input_amount,
        ) is Ok,
        spec_amount_out(
            pool.spec_reserve_in(request.input_side),
            pool.spec_reserve_out(request.input_side),
            pool.fee_bps,
            request.input_amount,
        ) < request.min_output_amount,
    ensures
        spec_execute_swap(pool, request, caller_balance_in) == Err::<SwapOutcome, SwapError>(
            SwapError::SlippageExceeded,
        ),
{
    lemma_curve_quotient_bounds(
        pool.spec_reserve_in(request.input_side),
        pool.spec_reserve_out(request.input_side),
        pool.fee_bps,
        request.input_amount,
    );
}

/// Determinism: the outcome of a swap, success or failure, is a function of
/// the pool state, the request and the caller's balance alone — equal
/// inputs give equal outcomes.
pub proof fn lemma_swap_deterministic(
    pool_a: Pool,
    request_a: SwapRequest,
    balance_a: u64,
    pool_b: Pool,
    request_b: SwapRequest,
    balance_b: u64,
)
    requires
        pool_a == pool_b,
        request_a == request_b,
        balance_a == balance_b,
    ensures
        spec_execute_swap(pool_a, request_a, balance_a) == spec_execute_swap(
            pool_b,
            request_b,
            balance_b,
        ),
{
}

/// Zero guard: a request for a zero input amount fails with `InvalidAmount`
/// before any curve computation is reached, whatever the pool state.
pub proof fn lemma_zero_amount_rejected(pool: Pool, request: SwapRequest, caller_balance_in: u64)
    requires
        request.input_amount == 0,
    ensures
        spec_execute_swap(pool, request, caller_balance_in) == Err::<SwapOutcome, SwapError>(
            SwapError::InvalidAmount,
        ),
{
}

} // verus!


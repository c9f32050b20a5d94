use vstd::arithmetic::div_mod::lemma_div_is_ordered_by_denominator;
use vstd::arithmetic::div_mod::lemma_div_multiples_vanish;
use vstd::arithmetic::div_mod::lemma_div_pos_is_pos;
use vstd::arithmetic::mul::lemma_mul_nonnegative;
use vstd::prelude::*;

use crate::errors::CurveError;
use crate::math::lemma_mul_div_le_left;
use crate::math::mul_div;
use crate::math::spec_mul_div;
use crate::state::BPS_DENOMINATOR;
use crate::state::SwapOutcome;

verus! {

/// The part of the input retained by the pool as the trading fee:
/// floor(amount_in * fee_bps / 10000).
pub open spec fn spec_fee_amount(amount_in: u64, fee_bps: u16) -> int {
    (amount_in * fee_bps) / (BPS_DENOMINATOR as int)
}

/// The part of the input the curve trades against: the input less the fee.
pub open spec fn spec_amount_in_after_fee(amount_in: u64, fee_bps: u16) -> int {
    amount_in - spec_fee_amount(amount_in, fee_bps)
}

/// The input-side reserve as the curve sees it after the trade:
/// the old reserve plus the fee-reduced input.
pub open spec fn spec_curve_denominator(reserve_in: u64, fee_bps: u16, amount_in: u64) -> int {
    reserve_in + spec_amount_in_after_fee(amount_in, fee_bps)
}

/// The output-side reserve the constant-product rule leaves in the pool:
/// floor(reserve_in * reserve_out / (reserve_in + amount_in_after_fee)).
pub open spec fn spec_curve_quotient(
    reserve_in: u64,
    reserve_out: u64,
    fee_bps: u16,
    amount_in: u64,
) -> int {
    (reserve_in * reserve_out) / spec_curve_denominator(reserve_in, fee_bps, amount_in)
}

/// What the floor in the quotient discards:
/// (reserve_in * reserve_out) mod (reserve_in + amount_in_after_fee).
pub open spec fn spec_curve_remainder(
    reserve_in: u64,
    reserve_out: u64,
    fee_bps: u16,
    amount_in: u64,
) -> int {
    (reserve_in * reserve_out) % spec_curve_denominator(reserve_in, fee_bps, amount_in)
}

/// The amount paid out to the caller: the decrease of the output-side
/// reserve.
pub open spec fn spec_amount_out(
    reserve_in: u64,
    reserve_out: u64,
    fee_bps: u16,
    amount_in: u64,
) -> int {
    reserve_out - spec_curve_quotient(reserve_in, reserve_out, fee_bps, amount_in)
}

/// The full behaviour of the curve computation, result and every error.
pub open spec fn spec_compute_swap(
    reserve_in: u64,
    reserve_out: u64,
    fee_bps: u16,
    amount_in: u64,
) -> Result<SwapOutcome, CurveError> {
    if reserve_in == 0 || reserve_out == 0 {
        Err(CurveError::EmptyReserves)
    } else if spec_curve_denominator(reserve_in, fee_bps, amount_in) > u64::MAX {
        Err(CurveError::Overflow)
    } else if spec_amount_out(reserve_in, reserve_out, fee_bps, amount_in) == 0 {
        Err(CurveError::ZeroOutput)
    } else {
        Ok(
            SwapOutcome {
                deposit_amount: amount_in,
                withdraw_amount: spec_amount_out(reserve_in, reserve_out, fee_bps, amount_in) as u64,
            },
        )
    }
}

/// The fee never exceeds the input, so the fee-reduced input is a u64 again.
pub proof fn lemma_fee_amount_bounds(amount_in: u64, fee_bps: u16)
    requires
        fee_bps <= BPS_DENOMINATOR,
    ensures
        0 <= spec_fee_amount(amount_in, fee_bps) <= amount_in,
        0 <= spec_amount_in_after_fee(amount_in, fee_bps) <= amount_in,
{
    lemma_mul_div_le_left(amount_in, fee_bps as u64, BPS_DENOMINATOR as u64);
    assert(spec_fee_amount(amount_in, fee_bps) == spec_mul_div(
        amount_in,
        fee_bps as u64,
        BPS_DENOMINATOR as u64,
    ));
}

/// The curve quotient never exceeds the output reserve: dividing by a
/// denominator at least as large as reserve_in can only shrink the ratio.
pub proof fn lemma_curve_quotient_bounds(
    reserve_in: u64,
    reserve_out: u64,
    fee_bps: u16,
    amount_in: u64,
)
    requires
        fee_bps <= BPS_DENOMINATOR,
        reserve_in > 0,
    ensures
        0 <= spec_curve_quotient(reserve_in, reserve_out, fee_bps, amount_in) <= reserve_out,
        0 <= spec_amount_out(reserve_in, reserve_out, fee_bps, amount_in) <= reserve_out,
{
    let d = spec_curve_denominator(reserve_in, fee_bps, amount_in);
    lemma_fee_amount_bounds(amount_in, fee_bps);
    lemma_mul_nonnegative(reserve_in as int, reserve_out as int);
    lemma_div_is_ordered_by_denominator(reserve_in * reserve_out, reserve_in as int, d);
    lemma_div_multiples_vanish(reserve_out as int, reserve_in as int);
    lemma_div_pos_is_pos(reserve_in * reserve_out, d);
}

/// Constant-product swap: apply the fee to the input, then pay out the
/// decrease of the output reserve that keeps the (fee-adjusted) product.
/// Every intermediate division rounds toward zero, in the pool's favor.
pub fn compute_swap(reserve_in: u64, reserve_out: u64, fee_bps: u16, amount_in: u64) -> (r: Result<
    SwapOutcome,
    CurveError,
>)
    requires
        fee_bps <= BPS_DENOMINATOR,
    ensures
        r == spec_compute_swap(reserve_in, reserve_out, fee_bps, amount_in),
{
    if reserve_in == 0 || reserve_out == 0 {
        return Err(CurveError::EmptyReserves);
    }
    proof {
        lemma_fee_amount_bounds(amount_in, fee_bps);
    }
    let fee_amount: u64 = match mul_div(amount_in, fee_bps as u64, BPS_DENOMINATOR as u64) {
        Ok(f) => f,
        // unreachable: the fee is at most the input, so it fits
        Err(_) => {
            return Err(CurveError::Overflow);
        },
    };
    let amount_in_after_fee: u64 = amount_in - fee_amount;
    if amount_in_after_fee > u64::MAX - reserve_in {
        return Err(CurveError::Overflow);
    }
    let denominator: u64 = reserve_in + amount_in_after_fee;
    proof {
        lemma_curve_quotient_bounds(reserve_in, reserve_out, fee_bps, amount_in);
    }
    let quotient: u64 = match mul_div(reserve_in, reserve_out, denominator) {
        Ok(q) => q,
        // unreachable: the quotient is at most reserve_out, so it fits
        Err(_) => {
            return Err(CurveError::Overflow);
        },
    };
    let amount_out: u64 = reserve_out - quotient;
    if amount_out == 0 {
        return Err(CurveError::ZeroOutput);
    }
    Ok(SwapOutcome { deposit_amount: amount_in, withdraw_amount: amount_out })
}

} // verus!

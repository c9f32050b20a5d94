use vstd::arithmetic::div_mod::lemma_div_is_ordered;
use vstd::arithmetic::div_mod::lemma_div_multiples_vanish;
use vstd::arithmetic::div_mod::lemma_div_pos_is_pos;
use vstd::arithmetic::mul::lemma_mul_inequality;
use vstd::arithmetic::mul::lemma_mul_upper_bound;
use vstd::prelude::*;

use crate::errors::MathError;

verus! {

/// floor(a * b / denom) over the unbounded integers. Meaningful only for
/// denom > 0; every use guards the denominator.
pub open spec fn spec_mul_div(a: u64, b: u64, denom: u64) -> int {
    (a * b) / (denom as int)
}

/// The quotient is bounded by the first factor whenever the second factor
/// is at most the denominator: floor(a * b / denom) <= a.
pub proof fn lemma_mul_div_le_left(a: u64, b: u64, denom: u64)
    requires
        0 < denom,
        b <= denom,
    ensures
        0 <= spec_mul_div(a, b, denom) <= a,
{
    lemma_mul_inequality(b as int, denom as int, a as int);
    assert(a * b == b * a) by (nonlinear_arith);
    assert(a * denom == denom * a) by (nonlinear_arith);
    lemma_div_is_ordered(a * b, a * denom, denom as int);
    lemma_div_multiples_vanish(a as int, denom as int);
    lemma_div_pos_is_pos(a * b, denom as int);
}

/// floor(a * b / denom), computed through a 128-bit intermediate so the
/// product a * b never overflows. Rounds toward zero; never panics.
pub fn mul_div(a: u64, b: u64, denom: u64) -> (r: Result<u64, MathError>)
    ensures
        denom == 0 ==> r == Err::<u64, MathError>(MathError::DivisionByZero),
        denom != 0 && spec_mul_div(a, b, denom) > u64::MAX ==> r == Err::<u64, MathError>(
            MathError::Overflow,
        ),
        denom != 0 && spec_mul_div(a, b, denom) <= u64::MAX ==> r == Ok::<u64, MathError>(
            (spec_mul_div(a, b, denom) as u64),
        ),
{
    if denom == 0 {
        return Err(MathError::DivisionByZero);
    }
    proof {
        lemma_mul_upper_bound(a as int, u64::MAX as int, b as int, u64::MAX as int);
        assert((u64::MAX as int) * (u64::MAX as int) < u128::MAX as int) by (nonlinear_arith);
    }
    let wide: u128 = (a as u128) * (b as u128);
    let quotient: u128 = wide / (denom as u128);
    if quotient > u64::MAX as u128 {
        Err(MathError::Overflow)
    } else {
        Ok(quotient as u64)
    }
}

} // verus!

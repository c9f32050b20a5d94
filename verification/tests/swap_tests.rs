use amm_core::errors::CurveError;
use amm_core::errors::SwapError;
use amm_core::orchestrator::execute_swap;
use amm_core::state::InputSide;
use amm_core::state::Pool;
use amm_core::state::SwapOutcome;
use amm_core::state::SwapRequest;
use amm_core::validate::validate_preconditions;

fn pool(reserve_x: u64, reserve_y: u64, fee_bps: u16, locked: bool) -> Pool {
    Pool { reserve_x, reserve_y, lp_supply: 1_000, fee_bps, locked }
}

fn request(input_side: InputSide, input_amount: u64, min_output_amount: u64) -> SwapRequest {
    SwapRequest { input_side, input_amount, min_output_amount }
}

#[test]
fn swap_succeeds_at_exact_minimum() {
    let p = pool(1000, 1000, 30, false);
    let r = execute_swap(&p, &request(InputSide::X, 100, 91), 500);
    assert_eq!(r, Ok(SwapOutcome { deposit_amount: 100, withdraw_amount: 91 }));
}

#[test]
fn swap_fails_one_above_true_output() {
    let p = pool(1000, 1000, 30, false);
    let r = execute_swap(&p, &request(InputSide::X, 100, 92), 500);
    assert_eq!(r, Err(SwapError::SlippageExceeded));
}

#[test]
fn empty_reserve_fails_regardless_of_amount() {
    let p = pool(0, 500, 30, false);
    for amount in [1u64, 100, u64::MAX] {
        let r = execute_swap(&p, &request(InputSide::X, amount, 0), u64::MAX);
        assert_eq!(r, Err(SwapError::NoLiquidityInPool));
        let r = execute_swap(&p, &request(InputSide::Y, amount, 0), u64::MAX);
        assert_eq!(r, Err(SwapError::NoLiquidityInPool));
    }
}

#[test]
fn zero_amount_fails_first() {
    // the zero-amount guard precedes every other check: even a locked,
    // empty pool reports InvalidAmount
    let p = pool(0, 0, 30, true);
    let r = execute_swap(&p, &request(InputSide::X, 0, 0), 0);
    assert_eq!(r, Err(SwapError::InvalidAmount));
}

#[test]
fn locked_pool_rejected() {
    let p = pool(1000, 1000, 30, true);
    let r = execute_swap(&p, &request(InputSide::X, 100, 0), 500);
    assert_eq!(r, Err(SwapError::PoolLocked));
}

#[test]
fn insufficient_balance_rejected() {
    let p = pool(1000, 1000, 30, false);
    let r = execute_swap(&p, &request(InputSide::X, 100, 0), 99);
    assert_eq!(r, Err(SwapError::InsufficientBalance));
}

#[test]
fn minimum_above_reserve_rejected_before_curve() {
    let p = pool(1000, 1000, 30, false);
    let r = execute_swap(&p, &request(InputSide::X, 100, 1001), 500);
    assert_eq!(r, Err(SwapError::LiquidityLessThanMinimum));
}

#[test]
fn y_side_swap_routes_reserves() {
    // depositing Y trades against reserve_y as input and reserve_x as output
    let p = pool(500, 1000, 30, false);
    let r = execute_swap(&p, &request(InputSide::Y, 100, 0), 100);
    // out = 500 - floor(1000 * 500 / 1100) = 500 - 454 = 46
    assert_eq!(r, Ok(SwapOutcome { deposit_amount: 100, withdraw_amount: 46 }));
}

#[test]
fn full_fee_surfaces_curve_error() {
    let p = pool(1000, 1000, 10000, false);
    let r = execute_swap(&p, &request(InputSide::X, 50, 0), 500);
    assert_eq!(r, Err(SwapError::Curve(CurveError::ZeroOutput)));
}

#[test]
fn swap_outcome_is_deterministic() {
    let p = pool(123_456, 654_321, 25, false);
    let a = execute_swap(&p, &request(InputSide::X, 10_000, 1), 20_000);
    let b = execute_swap(&p, &request(InputSide::X, 10_000, 1), 20_000);
    assert_eq!(a, b);
}

#[test]
fn validator_returns_deposit_side() {
    let p = pool(1000, 1000, 30, false);
    assert_eq!(
        validate_preconditions(&p, &request(InputSide::X, 100, 91), 500),
        Ok(InputSide::X)
    );
    assert_eq!(
        validate_preconditions(&p, &request(InputSide::Y, 100, 91), 500),
        Ok(InputSide::Y)
    );
}

#[test]
fn validator_checks_in_order() {
    let p = pool(1000, 1000, 30, true);
    // locked is reported before the balance check
    assert_eq!(
        validate_preconditions(&p, &request(InputSide::X, 100, 0), 0),
        Err(SwapError::PoolLocked)
    );
}

#[test]
fn opposite_side_flips() {
    assert_eq!(InputSide::X.opposite(), InputSide::Y);
    assert_eq!(InputSide::Y.opposite(), InputSide::X);
}

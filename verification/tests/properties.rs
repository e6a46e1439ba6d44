use std::cell::Cell;

use fixedpoint::fixedpoint;
use fixedpoint::FixedPointError;

fn func_with_fixed_point(num: u32, param: &u32) -> u32 {
    150 + (((num as f32 / param.clone() as f32).ceil() as u32) * 100)
}

fn climb(n: u32, cap: &u32) -> u32 {
    if n >= *cap {
        n
    } else {
        n + 1
    }
}

fn add_step(n: u64, step: &u64) -> u64 {
    n + *step
}

fn constant(_n: u32, value: &u32) -> u32 {
    *value
}

fn count_and_return(n: u32, state: &(Cell<u32>, u32)) -> u32 {
    let _ = n;
    state.0.set(state.0.get() + 1);
    state.1
}

#[test]
fn converges_to_reachable_fixed_point() {
    assert_eq!(fixedpoint(&climb, 0, &7, None, None), Ok(7));
}

#[test]
fn idempotent_start_single_evaluation() {
    let state = (Cell::new(0u32), 42u32);
    assert_eq!(fixedpoint(&count_and_return, 42, &state, None, None), Ok(42));
    assert_eq!(state.0.get(), 1);
}

#[test]
fn iteration_limit_carries_budget() {
    assert_eq!(
        fixedpoint(&add_step, 0u64, &1u64, Some(5), None),
        Err(FixedPointError::IterationLimitExceeded(5))
    );
}

#[test]
fn value_limit_stops_divergence() {
    assert_eq!(
        fixedpoint(&add_step, 0u64, &100u64, None, Some(250)),
        Err(FixedPointError::ValueLimitExceeded)
    );
}

#[test]
fn budget_takes_precedence_over_value_bound() {
    // at the third step the budget runs out and the new iterate, 4, also
    // exceeds the bound of 3: the budget error wins
    assert_eq!(
        fixedpoint(&add_step, 0u64, &1u64, Some(3), Some(3)),
        Err(FixedPointError::IterationLimitExceeded(3))
    );
}

#[test]
fn zero_budget_is_invalid() {
    assert_eq!(
        fixedpoint(&add_step, 0u64, &1u64, Some(0), None),
        Err(FixedPointError::InvalidConfiguration)
    );
}

#[test]
fn default_budget_is_one_hundred() {
    assert_eq!(
        fixedpoint(&add_step, 0u64, &1u64, None, None),
        Err(FixedPointError::IterationLimitExceeded(100))
    );
}

#[test]
fn bound_caught_on_later_step() {
    // the first computed value, 500, is never checked against the bound, but
    // the value computed inside the loop is
    assert_eq!(
        fixedpoint(&constant, 0, &500, None, Some(400)),
        Err(FixedPointError::ValueLimitExceeded)
    );
}

#[test]
fn immediate_convergence_skips_bound() {
    // a start value that is already a fixed point is returned untouched,
    // even above the bound: no iterate computed in the loop ever exceeded it
    assert_eq!(fixedpoint(&constant, 500, &500, None, Some(400)), Ok(500));
}

#[test]
fn scenario_value_limit_exact_error() {
    assert_eq!(
        fixedpoint(&func_with_fixed_point, 0, &150, None, Some(400)),
        Err(FixedPointError::ValueLimitExceeded)
    );
}

#[test]
fn scenario_iteration_limit_exact_error() {
    assert_eq!(
        fixedpoint(&func_with_fixed_point, 0, &10, Some(5), None),
        Err(FixedPointError::IterationLimitExceeded(5))
    );
}

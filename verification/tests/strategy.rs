use std::time::Duration;

use canfund::manager::calc_needed_cycles;
use canfund::options::{CyclesThreshold, EstimatedRuntime, FundStrategy};
use canfund::record::CyclesBalance;

#[test]
fn mod_test_calc_needed_cycles() {
    let current = CyclesBalance::new(50, Duration::from_secs(10).as_nanos() as u64);

    let strategy = FundStrategy::Always(1000);
    assert_eq!(calc_needed_cycles(&current, 0, &strategy), 1000);

    let strategy = FundStrategy::BelowThreshold(
        CyclesThreshold::new()
            .with_min_cycles(50)
            .with_fund_cycles(100),
    );
    assert_eq!(calc_needed_cycles(&current, 0, &strategy), 100);

    let strategy = FundStrategy::BelowThreshold(
        CyclesThreshold::new()
            .with_min_cycles(49)
            .with_fund_cycles(100),
    );
    assert_eq!(calc_needed_cycles(&current, 0, &strategy), 0);

    let strategy = FundStrategy::BelowEstimatedRuntime(
        EstimatedRuntime::new()
            .with_min_runtime_secs(10)
            .with_fund_runtime_secs(10)
            .with_fallback_min_cycles(0),
    );
    assert_eq!(calc_needed_cycles(&current, 5, &strategy), 50);

    let strategy = FundStrategy::BelowEstimatedRuntime(
        EstimatedRuntime::new()
            .with_min_runtime_secs(10)
            .with_fund_runtime_secs(10)
            .with_max_runtime_cycles_fund(30)
            .with_fallback_min_cycles(0),
    );
    assert_eq!(calc_needed_cycles(&current, 5, &strategy), 30);
}

#[test]
fn test_calc_needed_cycles_zero_previous_cycles() {
    let current = CyclesBalance::new(50, Duration::from_secs(10).as_nanos() as u64);

    let strategy = FundStrategy::BelowEstimatedRuntime(
        EstimatedRuntime::new()
            .with_min_runtime_secs(10)
            .with_fund_runtime_secs(10)
            .with_fallback_min_cycles(50)
            .with_fallback_fund_cycles(100),
    );
    assert_eq!(calc_needed_cycles(&current, 0, &strategy), 100);

    let strategy = FundStrategy::BelowEstimatedRuntime(
        EstimatedRuntime::new()
            .with_min_runtime_secs(10)
            .with_fund_runtime_secs(10)
            .with_fallback_min_cycles(49)
            .with_fallback_fund_cycles(100),
    );
    assert_eq!(calc_needed_cycles(&current, 0, &strategy), 0);
}

#[test]
fn test_calc_needed_cycles_zero_current_amount() {
    let current = CyclesBalance::new(0, Duration::from_secs(10).as_nanos() as u64);

    let strategy = FundStrategy::BelowEstimatedRuntime(
        EstimatedRuntime::new()
            .with_min_runtime_secs(10)
            .with_fund_runtime_secs(10)
            .with_fallback_min_cycles(50)
            .with_fallback_fund_cycles(100),
    );
    assert_eq!(calc_needed_cycles(&current, 0, &strategy), 100);

    let strategy = FundStrategy::BelowThreshold(
        CyclesThreshold::new()
            .with_min_cycles(0)
            .with_fund_cycles(100),
    );

    assert_eq!(calc_needed_cycles(&current, 0, &strategy), 100);
}

#[test]
fn zero_rate_only_triggers_fallback() {
    // With no burn observed, only the fallback threshold decides, however
    // small the estimated-runtime thresholds are.
    let strategy = FundStrategy::BelowEstimatedRuntime(
        EstimatedRuntime::new()
            .with_min_runtime_secs(u64::MAX)
            .with_fund_runtime_secs(u64::MAX)
            .with_fallback_min_cycles(10)
            .with_fallback_fund_cycles(77),
    );
    assert_eq!(calc_needed_cycles(&CyclesBalance::new(11, 0), 0, &strategy), 0);
    assert_eq!(calc_needed_cycles(&CyclesBalance::new(10, 0), 0, &strategy), 77);
}

#[test]
fn runtime_fund_is_capped() {
    let strategy = FundStrategy::BelowEstimatedRuntime(
        EstimatedRuntime::new()
            .with_min_runtime_secs(1000)
            .with_fund_runtime_secs(1000)
            .with_max_runtime_cycles_fund(123)
            .with_fallback_min_cycles(1),
    );
    // avg * fund_runtime = 5000 would overshoot; the cap holds it at 123.
    assert_eq!(calc_needed_cycles(&CyclesBalance::new(50, 0), 5, &strategy), 123);
}

#[test]
fn needed_cycles_is_deterministic() {
    let current = CyclesBalance::new(987, 654);
    let strategy = FundStrategy::BelowEstimatedRuntime(
        EstimatedRuntime::new()
            .with_min_runtime_secs(7)
            .with_fund_runtime_secs(9)
            .with_fallback_min_cycles(5),
    );
    let first = calc_needed_cycles(&current, 3, &strategy);
    let second = calc_needed_cycles(&current, 3, &strategy);
    assert_eq!(first, second);
}

#[test]
fn saturating_multiplication_bounds_the_request() {
    // avg * fund_runtime saturates instead of overflowing, and the cap still
    // applies on top of the saturated product.
    let strategy = FundStrategy::BelowEstimatedRuntime(
        EstimatedRuntime::new()
            .with_min_runtime_secs(u64::MAX)
            .with_fund_runtime_secs(u64::MAX)
            .with_fallback_min_cycles(0),
    );
    let r = calc_needed_cycles(&CyclesBalance::new(1, 0), u128::MAX, &strategy);
    assert_eq!(r, u128::MAX);
}

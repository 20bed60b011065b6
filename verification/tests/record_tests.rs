use canfund::fetch::{BalanceFetcher, FetchCyclesBalanceFromCanisterStatus};
use canfund::history::ConsumptionHistory;
use canfund::record::{CanisterRecord, CyclesBalance, FundingErrorCode};

fn status_fetcher() -> BalanceFetcher {
    BalanceFetcher::CanisterStatus(FetchCyclesBalanceFromCanisterStatus::new())
}

#[test]
fn test_canister_record() {
    let cycles_fetcher = status_fetcher();
    let mut canister_record = CanisterRecord::new(cycles_fetcher, None, None, 0);

    let cycles = CyclesBalance::new(100, 100);
    canister_record.set_cycles(cycles.clone());
    assert_eq!(canister_record.get_cycles(), &Some(cycles));
    assert_eq!(canister_record.get_previous_cycles(), &None);

    let previous_cycles = canister_record.get_cycles().as_ref().unwrap().clone();
    canister_record.set_cycles(CyclesBalance::new(200, 200));
    assert_eq!(
        canister_record.get_previous_cycles(),
        &Some(previous_cycles)
    );

    let deposited_cycles = CyclesBalance::new(50, 1234567890);
    canister_record.add_deposited_cycles(deposited_cycles.clone());
    assert_eq!(
        canister_record.get_deposited_cycles(),
        &Some(CyclesBalance::new(50, deposited_cycles.timestamp))
    );

    canister_record.add_deposited_cycles(deposited_cycles.clone());
    assert_eq!(
        canister_record.get_deposited_cycles(),
        &Some(CyclesBalance::new(100, deposited_cycles.timestamp))
    );

    assert_eq!(
        canister_record.get_last_deposited_cycles(),
        &Some(CyclesBalance::new(50, deposited_cycles.timestamp))
    );

    assert_eq!(canister_record.get_average_consumption(), 0);
}

#[test]
fn test_canister_consumption() {
    let cycles_fetcher = status_fetcher();
    let mut canister_record = CanisterRecord::new(cycles_fetcher, None, None, 5);

    canister_record.set_cycles(CyclesBalance::new(300_000, 1_000_000_000));
    canister_record.set_cycles(CyclesBalance::new(200_000, 2_000_000_000));
    canister_record.set_cycles(CyclesBalance::new(250_000, 3_000_000_000)); // reservations returned

    canister_record.add_deposited_cycles(CyclesBalance::new(500_000, 3_000_000_100));

    assert_eq!(canister_record.get_average_consumption(), 50_000);

    canister_record.set_cycles(CyclesBalance::new(600_000, 4_000_000_000));
    canister_record.set_cycles(CyclesBalance::new(350_000, 5_000_000_000));
    canister_record.set_cycles(CyclesBalance::new(250_000, 6_000_000_000));
    canister_record.set_cycles(CyclesBalance::new(200_000, 7_000_000_000));

    assert_eq!(canister_record.get_average_consumption(), 110_000);
}

#[test]
fn test_set_funding_failure() {
    let mut record = CanisterRecord::new(status_fetcher(), None, None, 0);

    // Initially, there should be no funding failure
    assert!(record.get_funding_failure().is_none());

    // Set a funding failure
    let error_code = FundingErrorCode::DepositFailed;
    let timestamp = 123456789;
    record.set_funding_failure(error_code.clone(), timestamp);

    // Check if the funding failure is set correctly
    let failure = record.get_funding_failure().unwrap();
    assert_eq!(failure.error_code, error_code);
    assert_eq!(failure.timestamp, timestamp);
}

#[test]
fn history_window_keeps_only_latest_samples() {
    let mut history = ConsumptionHistory::new(2);
    history.add_sample(10);
    history.add_sample(20);
    assert_eq!(history.average(), 15);
    // The window is full: the oldest sample leaves.
    history.add_sample(50);
    assert_eq!(history.average(), 35);
}

#[test]
fn history_zero_window_ignores_samples() {
    let mut history = ConsumptionHistory::new(0);
    history.add_sample(10);
    history.add_sample(u64::MAX);
    assert_eq!(history.average(), 0);
}

#[test]
fn history_empty_average_is_zero() {
    let history = ConsumptionHistory::new(3);
    assert_eq!(history.average(), 0);
}

#[test]
fn deposited_cycles_is_monotone() {
    let mut record = CanisterRecord::new(status_fetcher(), None, None, 2);
    let mut last: u128 = 0;
    record.add_deposited_cycles(CyclesBalance::new(5, 1));
    let d = record.get_deposited_cycles().as_ref().unwrap().amount;
    assert!(d >= last);
    last = d;
    record.set_cycles(CyclesBalance::new(100, 2));
    let d = record.get_deposited_cycles().as_ref().unwrap().amount;
    assert!(d >= last);
    last = d;
    record.add_deposited_cycles(CyclesBalance::new(u128::MAX, 3));
    let d = record.get_deposited_cycles().as_ref().unwrap().amount;
    assert!(d >= last);
    assert_eq!(d, u128::MAX);
}

#[test]
fn deposit_is_not_observed_as_burn() {
    // An observation right after a deposit, with no burn in between, adds a
    // zero sample: the average stays zero.
    let mut record = CanisterRecord::new(status_fetcher(), None, None, 4);
    record.set_cycles(CyclesBalance::new(1_000, 1_000_000_000));
    record.add_deposited_cycles(CyclesBalance::new(500, 1_500_000_000));
    record.set_cycles(CyclesBalance::new(1_500, 2_000_000_000));
    assert_eq!(record.get_average_consumption(), 0);
}

#[test]
fn equal_timestamps_yield_zero_sample() {
    let mut record = CanisterRecord::new(status_fetcher(), None, None, 4);
    record.set_cycles(CyclesBalance::new(1_000, 7));
    record.set_cycles(CyclesBalance::new(100, 7));
    assert_eq!(record.get_average_consumption(), 0);
}

#[test]
fn failure_codes_carry_messages() {
    assert_eq!(
        FundingErrorCode::InsufficientCycles.message(),
        "Insufficient cycles in the funding canister."
    );
    assert_eq!(
        FundingErrorCode::DepositFailed.message(),
        "The deposit of cycles failed."
    );
    assert_eq!(
        FundingErrorCode::ObtainCyclesFailed.message(),
        "Obtaining cycles for the canister failed."
    );
    assert_eq!(
        FundingErrorCode::BalanceCheckFailed.message(),
        "Fetching cycles balance failed."
    );
    assert_eq!(
        FundingErrorCode::Other("custom".to_string()).message(),
        "custom"
    );
}

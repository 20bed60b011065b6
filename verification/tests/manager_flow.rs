use canfund::ids::CanisterId;
use canfund::manager::{FundManagerCore, FundingRoute, RegisterOpts};
use canfund::obtain::{CycleSource, ObtainCyclesOptions, WithdrawFromLedger};
use canfund::options::{CyclesThreshold, EstimatedRuntime, FundManagerOptions, FundStrategy};
use canfund::record::FundingErrorCode;

/// A toy environment for driving monitoring ticks: each canister's balance,
/// keyed by identifier, and a deposit that adds to it.
struct TestEnv {
    balances: Vec<(CanisterId, u128)>,
    self_id: CanisterId,
    self_balance: u128,
}

impl TestEnv {
    fn balance_of(&self, id: &CanisterId) -> u128 {
        if *id == self.self_id {
            return self.self_balance;
        }
        for (known, balance) in &self.balances {
            if known == id {
                return *balance;
            }
        }
        0
    }

    fn set_balance(&mut self, id: &CanisterId, amount: u128) {
        if *id == self.self_id {
            self.self_balance = amount;
            return;
        }
        for (known, balance) in &mut self.balances {
            if known == id {
                *balance = amount;
                return;
            }
        }
        self.balances.push((id.clone(), amount));
    }

    fn deposit(&mut self, id: &CanisterId, amount: u128) {
        let now = self.balance_of(id);
        self.set_balance(id, now + amount);
    }
}

/// One scheduled monitoring tick, driven the way the host would drive it:
/// take the lock, fetch every registered canister's balance in chunks, decide
/// the needed funds, carry the deposits out, and release the lock.
fn run_tick(core: &mut FundManagerCore, env: &mut TestEnv, now: u64) {
    let guard = match core.try_begin_tick() {
        Some(guard) => guard,
        None => return,
    };
    let snapshot = core.snapshot_fetchers();
    let chunk_size = core.effective_chunk_size() as usize;
    for chunk in snapshot.chunks(chunk_size) {
        let mut to_fund: Vec<(CanisterId, u128)> = Vec::new();
        for (id, _fetcher) in chunk {
            let balance = env.balance_of(id);
            let needed = core.record_fetch_result(id, Ok(balance), now);
            if needed > 0 {
                to_fund.push((id.clone(), needed));
            }
        }
        for (id, needed) in to_fund {
            match core.plan_funding(&id, needed, &env.self_id, env.self_balance, now) {
                FundingRoute::DepositDirect => {
                    env.deposit(&id, needed);
                    env.self_balance = env.self_balance.saturating_sub(needed);
                    core.apply_deposit(&id, needed, now);
                }
                FundingRoute::ObtainVia(_source) => {
                    // The toy environment always obtains the asked amount.
                    env.deposit(&id, needed);
                    core.apply_deposit(&id, needed, now);
                }
                FundingRoute::FailInsufficient => {
                    core.apply_funding_failure(&id, FundingErrorCode::InsufficientCycles, now);
                }
            }
        }
    }
    core.end_tick(guard);
}

fn deposited_amount(core: &FundManagerCore, id: &CanisterId) -> u128 {
    core.get_canister(id)
        .unwrap()
        .get_deposited_cycles()
        .as_ref()
        .map_or(0, |c| c.amount)
}

#[test]
fn successfully_monitors_funded_canister_and_tops_up() {
    let top_up_should_happen_when_cycles_below: u128 = 400_000_000_000;
    let funded_canister_id = CanisterId::from_bytes(vec![1]);
    let funding_canister_id = CanisterId::from_bytes(vec![9]);
    let mut env = TestEnv {
        balances: vec![(
            funded_canister_id.clone(),
            top_up_should_happen_when_cycles_below + 5_000_000_000,
        )],
        self_id: funding_canister_id,
        self_balance: 100_000_000_000_000,
    };

    let mut core = FundManagerCore::new();
    core.set_options(
        FundManagerOptions::new()
            .with_interval_secs(12 * 60 * 60)
            .with_strategy(FundStrategy::BelowThreshold(
                CyclesThreshold::new()
                    .with_min_cycles(400_000_000_000)
                    .with_fund_cycles(250_000_000_000),
            )),
    );
    core.register(
        funded_canister_id.clone(),
        RegisterOpts::new().with_strategy(FundStrategy::BelowThreshold(
            CyclesThreshold::new()
                .with_min_cycles(400_000_000_000)
                .with_fund_cycles(500_000_000_000),
        )),
    );

    if env.balance_of(&funded_canister_id) <= top_up_should_happen_when_cycles_below {
        panic!("Funded canister's cycles balance is too low to run the test");
    }

    // The balance is above the threshold: the first tick deposits nothing.
    run_tick(&mut core, &mut env, 1_000_000_000);
    assert_eq!(deposited_amount(&core, &funded_canister_id), 0);

    // Burn the balance below the threshold; the next tick tops it up.
    env.set_balance(
        &funded_canister_id,
        top_up_should_happen_when_cycles_below - 5_000_000_000,
    );
    run_tick(&mut core, &mut env, 2_000_000_000);

    assert!(env.balance_of(&funded_canister_id) > 500_000_000_000);
}

#[test]
fn successfully_stores_funding_data() {
    let top_up_should_happen_when_cycles_below: u128 = 400_000_000_000;
    let funded_canister_id = CanisterId::from_bytes(vec![2]);
    let funding_canister_id = CanisterId::from_bytes(vec![9]);
    let mut env = TestEnv {
        balances: vec![(
            funded_canister_id.clone(),
            top_up_should_happen_when_cycles_below + 5_000_000_000,
        )],
        self_id: funding_canister_id.clone(),
        self_balance: 100_000_000_000_000,
    };

    let mut core = FundManagerCore::new();
    core.set_options(
        FundManagerOptions::new()
            .with_interval_secs(12 * 60 * 60)
            .with_strategy(FundStrategy::BelowEstimatedRuntime(
                EstimatedRuntime::new()
                    .with_min_runtime_secs(2 * 24 * 60 * 60)
                    .with_fund_runtime_secs(5 * 24 * 60 * 60)
                    .with_max_runtime_cycles_fund(1_000_000_000_000)
                    .with_fallback_min_cycles(400_000_000_000)
                    .with_fallback_fund_cycles(250_000_000_000),
            )),
    );
    core.register(funded_canister_id.clone(), RegisterOpts::new());
    // The funding canister watches itself as well.
    core.register(
        funding_canister_id.clone(),
        RegisterOpts::new().with_strategy(FundStrategy::BelowThreshold(
            CyclesThreshold::new()
                .with_min_cycles(500_000_000_000)
                .with_fund_cycles(750_000_000_000),
        )),
    );

    if env.balance_of(&funded_canister_id) <= top_up_should_happen_when_cycles_below {
        panic!("Funded canister's cycles balance is too low to run the test");
    }

    run_tick(&mut core, &mut env, 1_000_000_000);

    env.set_balance(
        &funded_canister_id,
        top_up_should_happen_when_cycles_below - 5_000_000_000,
    );
    run_tick(&mut core, &mut env, 43_200_000_000_000);

    // The drained canister got one fallback deposit; nothing else did.
    for (id, record) in core.get_canisters() {
        let deposited = record.get_deposited_cycles().as_ref().map_or(0, |c| c.amount);
        if id == funded_canister_id {
            assert_eq!(deposited, 250_000_000_000);
        } else {
            assert_eq!(deposited, 0);
        }
    }

    env.set_balance(
        &funded_canister_id,
        top_up_should_happen_when_cycles_below - 5_000_000_000,
    );
    run_tick(&mut core, &mut env, 86_400_000_000_000);

    for (id, record) in core.get_canisters() {
        let deposited = record.get_deposited_cycles().as_ref().map_or(0, |c| c.amount);
        if id == funded_canister_id {
            assert_eq!(deposited, 500_000_000_000);
        } else {
            assert_eq!(deposited, 0);
        }
    }
}

#[test]
fn registering_twice_keeps_the_first_registration() {
    let id = CanisterId::from_bytes(vec![7]);
    let mut core = FundManagerCore::new();
    let first = FundStrategy::Always(11);
    let second = FundStrategy::Always(22);
    core.register(id.clone(), RegisterOpts::new().with_strategy(first));
    core.register(id.clone(), RegisterOpts::new().with_strategy(second));
    let record = core.get_canister(&id).unwrap();
    assert_eq!(record.get_strategy(), &Some(first));
    assert_eq!(core.get_canisters().len(), 1);
}

#[test]
fn unregistering_removes_the_record_and_is_then_a_no_op() {
    let id = CanisterId::from_bytes(vec![8]);
    let mut core = FundManagerCore::new();
    core.register(id.clone(), RegisterOpts::new());
    assert!(core.get_canister(&id).is_some());
    assert!(core.unregister(id.clone()).is_some());
    assert!(core.get_canister(&id).is_none());
    assert!(core.unregister(id.clone()).is_none());
    assert!(core.get_canister(&id).is_none());
}

#[test]
fn ticks_never_overlap() {
    let mut core = FundManagerCore::new();
    let guard = core.try_begin_tick().expect("the lock is free at first");
    // While the first tick runs, a second one is refused.
    assert!(core.try_begin_tick().is_none());
    core.end_tick(guard);
    // Once released, a tick can run again.
    let guard = core.try_begin_tick().expect("the lock is free again");
    core.end_tick(guard);
}

#[test]
fn failed_balance_checks_are_recorded_and_reset() {
    let id = CanisterId::from_bytes(vec![3]);
    let self_id = CanisterId::from_bytes(vec![9]);
    let mut core = FundManagerCore::new();
    core.register(id.clone(), RegisterOpts::new());

    let guard = core.try_begin_tick().unwrap();
    let needed = core.record_fetch_result(
        &id,
        Err(canfund::errors::Error::MetricsResponseDeserializationFailed),
        5,
    );
    assert_eq!(needed, 0);
    core.end_tick(guard);
    let failure = core.get_canister(&id).unwrap();
    let failure = failure.get_funding_failure().clone().unwrap();
    assert_eq!(failure.error_code, FundingErrorCode::BalanceCheckFailed);
    assert_eq!(failure.timestamp, 5);

    // The next tick clears the failure before fetching.
    let guard = core.try_begin_tick().unwrap();
    assert!(core
        .get_canister(&id)
        .unwrap()
        .get_funding_failure()
        .is_none());
    core.end_tick(guard);
    let _ = self_id;
}

#[test]
fn self_top_up_without_a_source_is_an_insufficient_cycles_failure() {
    let self_id = CanisterId::from_bytes(vec![9]);
    let mut core = FundManagerCore::new();
    core.set_options(FundManagerOptions::new().with_strategy(FundStrategy::Always(100)));
    core.register(self_id.clone(), RegisterOpts::new());

    let guard = core.try_begin_tick().unwrap();
    let needed = core.record_fetch_result(&self_id, Ok(1_000), 3);
    assert_eq!(needed, 100);
    match core.plan_funding(&self_id, needed, &self_id, 1_000, 3) {
        FundingRoute::FailInsufficient => {
            core.apply_funding_failure(&self_id, FundingErrorCode::InsufficientCycles, 3);
        }
        _ => panic!("the funding canister itself must go through a cycle source"),
    }
    core.end_tick(guard);
    let record = core.get_canister(&self_id).unwrap();
    let failure = record.get_funding_failure().unwrap();
    assert_eq!(failure.error_code, FundingErrorCode::InsufficientCycles);
}

#[test]
fn lock_is_keyed_and_released_by_its_guard() {
    let mut lock = canfund::lock::ProcessExecutionLock::new();
    let key_a = vec![1u8, 2, 3];
    let key_b = vec![4u8];
    let guard_a = lock.lock(key_a.clone()).expect("a free key can be taken");
    assert!(lock.is_held(&key_a));
    // The same key is refused while held; a different key is independent.
    assert!(lock.lock(key_a.clone()).is_none());
    let guard_b = lock.lock(key_b.clone()).expect("another key is free");
    lock.unlock(guard_a);
    assert!(!lock.is_held(&key_a));
    assert!(lock.is_held(&key_b));
    lock.unlock(guard_b);
    assert!(lock.lock(key_a).is_some());
}

#[test]
fn deposit_and_obtain_failures_are_recorded() {
    let id = CanisterId::from_bytes(vec![5]);
    let mut core = FundManagerCore::new();
    core.register(id.clone(), RegisterOpts::new());

    core.apply_funding_failure(&id, FundingErrorCode::DepositFailed, 11);
    let record = core.get_canister(&id).unwrap();
    let failure = record.get_funding_failure().unwrap();
    assert_eq!(failure.error_code, FundingErrorCode::DepositFailed);
    assert_eq!(failure.timestamp, 11);

    core.apply_funding_failure(&id, FundingErrorCode::ObtainCyclesFailed, 12);
    let record = core.get_canister(&id).unwrap();
    let failure = record.get_funding_failure().unwrap();
    assert_eq!(failure.error_code, FundingErrorCode::ObtainCyclesFailed);
}

#[test]
fn a_low_funding_canister_routes_through_its_cycle_source() {
    let target = CanisterId::from_bytes(vec![6]);
    let self_id = CanisterId::from_bytes(vec![9]);
    let mut core = FundManagerCore::new();
    core.set_options(
        FundManagerOptions::new()
            .with_strategy(FundStrategy::BelowThreshold(
                CyclesThreshold::new()
                    .with_min_cycles(1_000)
                    .with_fund_cycles(5_000),
            ))
            .with_obtain_cycles_options(ObtainCyclesOptions {
                obtain_cycles: CycleSource::Withdraw(WithdrawFromLedger {
                    ledger: CanisterId::from_bytes(vec![8]),
                    from_subaccount: None,
                }),
            }),
    );
    core.register(target.clone(), RegisterOpts::new());

    // Depositing 5_000 from a balance of 5_500 would leave the funding
    // canister at 500, below its own threshold: the plan goes through the
    // global cycle source.
    match core.plan_funding(&target, 5_000, &self_id, 5_500, 1) {
        FundingRoute::ObtainVia(_) => {}
        _ => panic!("a low funding canister must obtain cycles first"),
    }
    // With a comfortable balance the deposit is direct.
    match core.plan_funding(&target, 5_000, &self_id, 1_000_000, 1) {
        FundingRoute::DepositDirect => {}
        _ => panic!("a well-funded canister deposits directly"),
    }
}

#[test]
fn chunk_size_has_a_floor_of_one() {
    let mut core = FundManagerCore::new();
    core.set_options(FundManagerOptions::new().with_chunk_size(0));
    assert_eq!(core.effective_chunk_size(), 1);
    core.set_options(FundManagerOptions::new().with_chunk_size(5));
    assert_eq!(core.effective_chunk_size(), 5);
}

#[test]
fn estimated_runtime_registration_sizes_the_history_window() {
    // min_runtime 2 days at a 12-hour interval keeps 4 samples; the record
    // averages over at most that many.
    let id = CanisterId::from_bytes(vec![4]);
    let mut core = FundManagerCore::new();
    core.set_options(
        FundManagerOptions::new()
            .with_interval_secs(12 * 60 * 60)
            .with_strategy(FundStrategy::BelowEstimatedRuntime(
                EstimatedRuntime::new().with_min_runtime_secs(2 * 24 * 60 * 60),
            )),
    );
    core.register(id.clone(), RegisterOpts::new());
    let mut record = core.get_canister(&id).unwrap();
    // Six observations give five burn samples of 100, 100, 100, 100 and 600;
    // the window of four drops the first, so the average is 225.
    let balances: [u128; 6] = [1_000, 900, 800, 700, 600, 0];
    for (step, balance) in balances.iter().enumerate() {
        record.set_cycles(canfund::record::CyclesBalance::new(
            *balance,
            (step as u64 + 1) * 1_000_000_000,
        ));
    }
    assert_eq!(record.get_average_consumption(), 225);
}

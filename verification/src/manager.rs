//! The fund manager core: the registry of monitored canisters, the strategy
//! evaluator, and the per-step decisions of the monitoring tick.

use vstd::prelude::*;
use vstd::string::StringSliceAdditionalSpecFns;

use crate::fetch::{BalanceFetcher, FetchCyclesBalanceFromCanisterStatus};
use crate::history::spec_average;
use crate::ids::CanisterId;
use crate::lock::{lock_post, ProcessExecutionLock, ProcessExecutionLockGuard};
use crate::num::{min_u128, sat_mul_u128};
use crate::obtain::{opt_obtain_view, ObtainCyclesOptions, ObtainCyclesOptionsView};
use crate::options::{EstimatedRuntime, FundManagerOptions, FundStrategy};
use crate::record::{CanisterRecord, CyclesBalance, RecordView};

verus! {

/// The amount the strategy evaluator asks to deposit, as a function of the
/// current balance, the average burn rate, and the strategy.
pub open spec fn spec_needed_cycles(
    current: CyclesBalance,
    estimated_cycles_per_sec: u128,
    strategy: FundStrategy,
) -> u128 {
    match strategy {
        FundStrategy::Always(cycles) => cycles,
        FundStrategy::BelowThreshold(threshold) => if current.amount <= threshold.min_cycles {
            threshold.fund_cycles
        } else {
            0
        },
        FundStrategy::BelowEstimatedRuntime(estimated_runtime) => if estimated_cycles_per_sec
            == 0 {
            if current.amount <= estimated_runtime.fallback_min_cycles {
                estimated_runtime.fallback_fund_cycles
            } else {
                0
            }
        } else if current.amount <= estimated_runtime.fallback_min_cycles {
            estimated_runtime.fallback_fund_cycles
        } else {
            let fund_with_cycles = min_u128(
                sat_mul_u128(estimated_cycles_per_sec, estimated_runtime.fund_runtime_secs as u128),
                estimated_runtime.max_runtime_cycles_fund,
            );
            if current.amount == 0 {
                fund_with_cycles
            } else {
                if current.amount / estimated_cycles_per_sec
                    <= estimated_runtime.min_runtime_secs as u128 {
                    fund_with_cycles
                } else {
                    0
                }
            }
        },
    }
}

/// Calculates the cycles needed to fund a canister from its current balance,
/// its estimated burn rate, and the strategy in force. Thresholds are
/// inclusive: a balance equal to the configured minimum already triggers
/// funding.
pub fn calc_needed_cycles(
    current: &CyclesBalance,
    estimated_cycles_per_sec: u128,
    strategy: &FundStrategy,
) -> (r: u128)
    ensures
        r == spec_needed_cycles(*current, estimated_cycles_per_sec, *strategy),
{
    match strategy {
        FundStrategy::Always(cycles) => *cycles,
        FundStrategy::BelowThreshold(threshold) => {
            if current.amount <= threshold.min_cycles() {
                return threshold.fund_cycles();
            }
            0
        },
        FundStrategy::BelowEstimatedRuntime(estimated_runtime) => {
            if estimated_cycles_per_sec == 0 {
                let is_below_threshold = current.amount
                    <= estimated_runtime.fallback_min_cycles();
                if is_below_threshold {
                    return estimated_runtime.fallback_fund_cycles();
                }
                return 0;
            }
            if current.amount <= estimated_runtime.fallback_min_cycles() {
                return estimated_runtime.fallback_fund_cycles();
            }
            let scaled = crate::num::saturating_mul_u128(
                estimated_cycles_per_sec,
                estimated_runtime.fund_runtime_secs() as u128,
            );
            let max_fund = estimated_runtime.max_runtime_cycles_fund();
            let fund_with_cycles = if scaled <= max_fund {
                scaled
            } else {
                max_fund
            };
            if current.amount == 0 {
                return fund_with_cycles;
            }
            let estimated_runtime_secs = current.amount / estimated_cycles_per_sec;
            if estimated_runtime_secs <= estimated_runtime.min_runtime_secs() as u128 {
                return fund_with_cycles;
            }
            0
        },
    }
}

/// The evaluator is a pure function: equal inputs give equal amounts.
pub proof fn lemma_needed_cycles_deterministic(
    current1: CyclesBalance,
    rate1: u128,
    strategy1: FundStrategy,
    current2: CyclesBalance,
    rate2: u128,
    strategy2: FundStrategy,
)
    requires
        current1 == current2,
        rate1 == rate2,
        strategy1 == strategy2,
    ensures
        spec_needed_cycles(current1, rate1, strategy1) == spec_needed_cycles(
            current2,
            rate2,
            strategy2,
        ),
{
}

/// With no burn observed, the estimated-runtime strategy decides on the
/// fallback path alone: the fallback amount when the balance is at or below
/// the fallback threshold, and nothing otherwise.
pub proof fn lemma_zero_rate_uses_fallback(current: CyclesBalance, estimated_runtime: EstimatedRuntime)
    ensures
        spec_needed_cycles(current, 0, FundStrategy::BelowEstimatedRuntime(estimated_runtime))
            == (if current.amount <= estimated_runtime.fallback_min_cycles {
            estimated_runtime.fallback_fund_cycles
        } else {
            0
        }),
{
}

/// Off the fallback path, the estimated-runtime strategy never asks for more
/// than the configured cap on the burn-rate-derived amount.
pub proof fn lemma_runtime_fund_capped(
    current: CyclesBalance,
    estimated_cycles_per_sec: u128,
    estimated_runtime: EstimatedRuntime,
)
    requires
        estimated_cycles_per_sec > 0,
        current.amount > estimated_runtime.fallback_min_cycles,
    ensures
        spec_needed_cycles(
            current,
            estimated_cycles_per_sec,
            FundStrategy::BelowEstimatedRuntime(estimated_runtime),
        ) <= estimated_runtime.max_runtime_cycles_fund,
{
}

/// The abstract state of the registry: identifier bytes paired with record
/// states, in registration order.
pub type RegistryView = Seq<(Seq<u8>, RecordView)>;

/// Whether the registry holds a record for the given identifier.
pub open spec fn contains_key(reg: RegistryView, key: Seq<u8>) -> bool {
    exists|i: int| 0 <= i < reg.len() && reg[i].0 == key
}

/// The position of the first record with the given identifier, or -1.
pub open spec fn find_key(reg: RegistryView, key: Seq<u8>) -> int
    decreases reg.len(),
{
    if reg.len() == 0 {
        -1
    } else if reg[0].0 == key {
        0
    } else {
        let rest = find_key(reg.drop_first(), key);
        if rest < 0 {
            -1
        } else {
            rest + 1
        }
    }
}

/// No two registry entries share an identifier.
pub open spec fn unique_keys(reg: RegistryView) -> bool {
    forall|i: int, j: int| 0 <= i < j < reg.len() ==> reg[i].0 != reg[j].0
}

/// `find_key` finds exactly the first position with the key.
pub proof fn lemma_find_key_first(reg: RegistryView, key: Seq<u8>, i: int)
    requires
        0 <= i < reg.len(),
        reg[i].0 == key,
        forall|j: int| 0 <= j < i ==> reg[j].0 != key,
    ensures
        find_key(reg, key) == i,
    decreases reg.len(),
{
    if i == 0 {
    } else {
        assert(reg.drop_first()[i - 1].0 == key);
        assert(forall|j: int| 0 <= j < i - 1 ==> reg.drop_first()[j].0 != key);
        lemma_find_key_first(reg.drop_first(), key, i - 1);
    }
}

/// On a registry without the key, `find_key` reports -1.
pub proof fn lemma_find_key_none(reg: RegistryView, key: Seq<u8>)
    requires
        !contains_key(reg, key),
    ensures
        find_key(reg, key) == -1,
    decreases reg.len(),
{
    if reg.len() == 0 {
    } else {
        assert(reg[0].0 != key);
        assert(!contains_key(reg.drop_first(), key)) by {
            if contains_key(reg.drop_first(), key) {
                let j = choose|j: int|
                    0 <= j < reg.drop_first().len() && reg.drop_first()[j].0 == key;
                assert(reg[j + 1].0 == key);
            }
        };
        lemma_find_key_none(reg.drop_first(), key);
    }
}

/// On a registry that holds the key, `find_key` points at a record with it.
pub proof fn lemma_find_key_some(reg: RegistryView, key: Seq<u8>)
    requires
        contains_key(reg, key),
    ensures
        0 <= find_key(reg, key) < reg.len(),
        reg[find_key(reg, key)].0 == key,
        forall|j: int| 0 <= j < find_key(reg, key) ==> reg[j].0 != key,
    decreases reg.len(),
{
    if reg[0].0 == key {
    } else {
        assert(contains_key(reg.drop_first(), key)) by {
            let j = choose|j: int| 0 <= j < reg.len() && reg[j].0 == key;
            assert(reg.drop_first()[j - 1].0 == key);
        };
        lemma_find_key_some(reg.drop_first(), key);
        assert(reg[find_key(reg, key)].0 == key);
        assert forall|j: int| 0 <= j < find_key(reg, key) implies reg[j].0 != key by {
            if j > 0 {
                assert(reg.drop_first()[j - 1].0 == reg[j].0);
            }
        }
    }
}

/// Removing an entry from a registry with unique keys keeps the other keys,
/// drops the removed one, and preserves uniqueness.
pub proof fn lemma_registry_remove(reg: RegistryView, i: int)
    requires
        unique_keys(reg),
        0 <= i < reg.len(),
    ensures
        unique_keys(reg.remove(i)),
        !contains_key(reg.remove(i), reg[i].0),
        forall|k: Seq<u8>|
            k != reg[i].0 ==> (contains_key(reg.remove(i), k) <==> contains_key(reg, k)),
{
    let post = reg.remove(i);
    assert forall|a: int, b: int| 0 <= a < b < post.len() implies post[a].0 != post[b].0 by {
        let ao: int = if a < i {
            a
        } else {
            a + 1
        };
        let bo: int = if b < i {
            b
        } else {
            b + 1
        };
        assert(post[a] == reg[ao] && post[b] == reg[bo]);
    }
    assert(!contains_key(post, reg[i].0)) by {
        if contains_key(post, reg[i].0) {
            let j = choose|j: int| 0 <= j < post.len() && post[j].0 == reg[i].0;
            let jo: int = if j < i {
                j
            } else {
                j + 1
            };
            assert(reg[jo].0 == reg[i].0 && jo != i);
        }
    };
    assert forall|k: Seq<u8>| k != reg[i].0 implies (contains_key(post, k) <==> contains_key(
        reg,
        k,
    )) by {
        if contains_key(post, k) {
            let j = choose|j: int| 0 <= j < post.len() && post[j].0 == k;
            let jo: int = if j < i {
                j
            } else {
                j + 1
            };
            assert(reg[jo].0 == k);
        }
        if contains_key(reg, k) {
            let jo = choose|jo: int| 0 <= jo < reg.len() && reg[jo].0 == k;
            let j: int = if jo < i {
                jo
            } else {
                jo - 1
            };
            assert(post[j].0 == k);
        }
    }
}

/// What registering does to the registry: a held identifier is ignored, a
/// fresh one is appended with its new record.
pub open spec fn spec_register(reg: RegistryView, key: Seq<u8>, record: RecordView) -> RegistryView {
    if contains_key(reg, key) {
        reg
    } else {
        reg.push((key, record))
    }
}

/// What unregistering does to the registry: the record with the identifier
/// leaves; an absent identifier changes nothing.
pub open spec fn spec_unregister(reg: RegistryView, key: Seq<u8>) -> RegistryView {
    if contains_key(reg, key) {
        reg.remove(find_key(reg, key))
    } else {
        reg
    }
}

/// Registering an identifier twice leaves the first registration intact: the
/// second registration changes nothing, whatever options it carries.
pub proof fn lemma_register_idempotent(
    reg: RegistryView,
    key: Seq<u8>,
    record1: RecordView,
    record2: RecordView,
)
    ensures
        spec_register(spec_register(reg, key, record1), key, record2) == spec_register(
            reg,
            key,
            record1,
        ),
{
    if !contains_key(reg, key) {
        let reg1 = reg.push((key, record1));
        assert(reg1[reg.len() as int].0 == key);
        assert(contains_key(reg1, key));
    }
}

/// Unregistering after registering removes the record: the identifier is no
/// longer held, and unregistering it again changes nothing.
pub proof fn lemma_unregister_removes(reg: RegistryView, key: Seq<u8>, record: RecordView)
    requires
        unique_keys(reg),
    ensures
        !contains_key(spec_unregister(spec_register(reg, key, record), key), key),
        spec_unregister(spec_unregister(spec_register(reg, key, record), key), key)
            == spec_unregister(spec_register(reg, key, record), key),
{
    let reg1 = spec_register(reg, key, record);
    if contains_key(reg, key) {
        lemma_find_key_some(reg, key);
        lemma_registry_remove(reg, find_key(reg, key));
    } else {
        let pushed = reg.push((key, record));
        assert(pushed[reg.len() as int].0 == key);
        assert(contains_key(pushed, key));
        assert(unique_keys(pushed)) by {
            assert forall|a: int, b: int|
                0 <= a < b < pushed.len() implies pushed[a].0 != pushed[b].0 by {
                if b == reg.len() {
                    assert(pushed[a] == reg[a]);
                    if reg[a].0 == key {
                        assert(contains_key(reg, key));
                    }
                }
            }
        };
        lemma_find_key_some(pushed, key);
        lemma_registry_remove(pushed, find_key(pushed, key));
    }
    assert(!contains_key(spec_unregister(reg1, key), key));
}

/// The abstract value of a sequence of registry entries.
pub open spec fn pairs_view(s: Seq<(CanisterId, CanisterRecord)>) -> RegistryView {
    s.map_values(|p: (CanisterId, CanisterRecord)| (p.0@, p.1@))
}

/// Options for registering a canister to be monitored by the fund manager.
/// By default the cycles balance comes from a status call, and the funding
/// and cycle-obtaining strategies fall back to the global ones.
pub struct RegisterOpts {
    /// How the canister's balance is fetched.
    pub cycles_fetcher: BalanceFetcher,
    /// Optional fund strategy overriding the global one.
    pub strategy: Option<FundStrategy>,
    /// Optional cycle-obtaining override.
    pub obtain_cycles_options: Option<ObtainCyclesOptions>,
}

impl RegisterOpts {
    /// Creates a new register options with the default cycles fetcher.
    pub fn new() -> (r: Self)
        ensures
            r.cycles_fetcher@ == crate::fetch::FetcherView::CanisterStatus(
                crate::fetch::StatusFetcherView {
                    canister: Seq::<u8>::empty(),
                    method: "canister_status"@,
                },
            ),
            r.strategy is None,
            r.obtain_cycles_options is None,
    {
        Self {
            cycles_fetcher: BalanceFetcher::CanisterStatus(
                FetchCyclesBalanceFromCanisterStatus::new(),
            ),
            strategy: None,
            obtain_cycles_options: None,
        }
    }

    /// Sets the cycles fetcher for the register options.
    pub fn with_cycles_fetcher(self, cycles_fetcher: BalanceFetcher) -> (r: Self)
        ensures
            r.cycles_fetcher == cycles_fetcher,
            r.strategy == self.strategy,
            r.obtain_cycles_options == self.obtain_cycles_options,
    {
        Self { cycles_fetcher, ..self }
    }

    /// Sets the funding strategy for the register options.
    pub fn with_strategy(self, strategy: FundStrategy) -> (r: Self)
        ensures
            r.cycles_fetcher == self.cycles_fetcher,
            r.strategy == Some(strategy),
            r.obtain_cycles_options == self.obtain_cycles_options,
    {
        Self { strategy: Some(strategy), ..self }
    }

    /// Sets the obtain cycles config for the register options.
    pub fn with_obtain_cycles_options(self, obtain_cycles_options: ObtainCyclesOptions) -> (r:
        Self)
        ensures
            r.cycles_fetcher == self.cycles_fetcher,
            r.strategy == self.strategy,
            r.obtain_cycles_options == Some(obtain_cycles_options),
    {
        Self { obtain_cycles_options: Some(obtain_cycles_options), ..self }
    }
}

/// The consumption-history window a registration gets: the effective
/// strategy's minimum runtime divided by the monitoring interval when that
/// strategy watches estimated runtime, and zero otherwise (also on a zero
/// interval, which would otherwise have no defined quotient).
pub open spec fn effective_window(
    strategy: Option<FundStrategy>,
    global_strategy: FundStrategy,
    interval_secs: u64,
) -> u64 {
    let effective = match strategy {
        Some(s) => s,
        None => global_strategy,
    };
    match effective {
        FundStrategy::BelowEstimatedRuntime(estimated_runtime) => if interval_secs == 0 {
            0
        } else {
            (estimated_runtime.min_runtime_secs / interval_secs) as u64
        },
        _ => 0,
    }
}

/// The record a fresh registration inserts.
pub open spec fn fresh_record(
    opts_fetcher: crate::fetch::FetcherView,
    opts_strategy: Option<FundStrategy>,
    opts_obtain: Option<ObtainCyclesOptionsView>,
    window_size: usize,
) -> RecordView {
    RecordView {
        cycles: None::<CyclesBalance>,
        previous_cycles: None::<CyclesBalance>,
        samples: Seq::<u64>::empty(),
        window_size: window_size,
        deposited_cycles: None::<CyclesBalance>,
        last_deposited_cycles: None::<CyclesBalance>,
        cycles_fetcher: opts_fetcher,
        strategy: opts_strategy,
        obtain_cycles_options: opts_obtain,
        funding_failure: None::<crate::record::FundingFailureView>,
    }
}

/// The core state of the fund manager: the execution lock, the registry of
/// monitored canisters, and the global options.
pub struct FundManagerCore {
    /// Keeps scheduled monitoring ticks from overlapping.
    lock: ProcessExecutionLock,
    /// The canisters that are being monitored, keyed by identifier.
    canisters: Vec<(CanisterId, CanisterRecord)>,
    /// The global options.
    options: FundManagerOptions,
}

impl FundManagerCore {
    /// The abstract registry state.
    pub closed spec fn registry(&self) -> RegistryView {
        pairs_view(self.canisters@)
    }

    /// The abstract options state.
    pub closed spec fn options_view(&self) -> crate::options::FundManagerOptionsView {
        self.options@
    }

    /// The keys the execution lock currently holds.
    pub closed spec fn lock_held(&self) -> Set<Seq<u8>> {
        self.lock.held()
    }

    /// Structural invariant: registry keys are unique, every record is
    /// well-formed, and so is the lock.
    pub closed spec fn well_formed(&self) -> bool {
        &&& unique_keys(self.registry())
        &&& forall|i: int|
            0 <= i < self.canisters@.len() ==> #[trigger] self.canisters@[i].1.well_formed()
        &&& self.lock.well_formed()
    }

    /// Constructs a fund manager core with no canisters, default options, and
    /// no lock held.
    pub fn new() -> (r: Self)
        ensures
            r.well_formed(),
            r.registry() == Seq::<(Seq<u8>, RecordView)>::empty(),
            r.options_view() == (crate::options::FundManagerOptionsView {
                interval_secs: 43200,
                chunk_size: 20,
                delayed_start: false,
                strategy: FundStrategy::BelowThreshold(
                    crate::options::CyclesThreshold { min_cycles: 0, fund_cycles: 0 },
                ),
                obtain_cycles_options: None::<ObtainCyclesOptionsView>,
            }),
            r.lock_held() == Set::<Seq<u8>>::empty(),
    {
        let r = Self {
            canisters: Vec::new(),
            options: FundManagerOptions::new(),
            lock: ProcessExecutionLock::new(),
        };
        proof {
            assert(r.registry() =~= Seq::<(Seq<u8>, RecordView)>::empty());
        }
        r
    }

    /// Returns the options for the fund manager.
    pub fn options(&self) -> (r: &FundManagerOptions)
        ensures
            r@ == self.options_view(),
    {
        &self.options
    }

    /// Replaces the options for the fund manager.
    pub fn set_options(&mut self, options: FundManagerOptions)
        ensures
            final(self).well_formed() <==> old(self).well_formed(),
            final(self).options_view() == options@,
            final(self).registry() == old(self).registry(),
            final(self).lock_held() == old(self).lock_held(),
    {
        self.options = options;
    }

    /// Returns the position of the canister in the registry, if present.
    fn find_index(&self, canister_id: &CanisterId) -> (r: Option<usize>)
        ensures
            match r {
                Some(i) => contains_key(self.registry(), canister_id@) && i == find_key(
                    self.registry(),
                    canister_id@,
                ) && i < self.registry().len(),
                None => !contains_key(self.registry(), canister_id@),
            },
    {
        let mut i: usize = 0;
        while i < self.canisters.len()
            invariant
                i <= self.canisters@.len(),
                forall|j: int| 0 <= j < i ==> #[trigger] self.registry()[j].0 != canister_id@,
            decreases self.canisters@.len() - i,
        {
            if crate::ids::bytes_eq(&self.canisters[i].0.bytes, &canister_id.bytes) {
                proof {
                    assert(self.registry()[i as int].0 == canister_id@);
                    lemma_find_key_first(self.registry(), canister_id@, i as int);
                }
                return Some(i);
            }
            i += 1;
        }
        None
    }

    /// Register a canister to be monitored by the fund manager.
    ///
    /// If the canister is already registered, it is ignored. A fresh record
    /// gets a consumption-history window derived from the effective strategy
    /// and the monitoring interval.
    pub fn register(&mut self, canister_id: CanisterId, opts: RegisterOpts)
        requires
            old(self).well_formed(),
        ensures
            final(self).well_formed(),
            final(self).registry() == spec_register(
                old(self).registry(),
                canister_id@,
                fresh_record(
                    opts.cycles_fetcher@,
                    opts.strategy,
                    opt_obtain_view(opts.obtain_cycles_options),
                    effective_window(
                        opts.strategy,
                        old(self).options_view().strategy,
                        old(self).options_view().interval_secs,
                    ) as usize,
                ),
            ),
            final(self).options_view() == old(self).options_view(),
            final(self).lock_held() == old(self).lock_held(),
    {
        let interval_secs = self.options.interval_secs();
        let history_window_size: u64 = match &opts.strategy {
            Some(FundStrategy::BelowEstimatedRuntime(estimated_runtime)) => {
                if interval_secs == 0 {
                    0
                } else {
                    estimated_runtime.min_runtime_secs() / interval_secs
                }
            },
            None => match self.options.strategy() {
                FundStrategy::BelowEstimatedRuntime(estimated_runtime) => {
                    if interval_secs == 0 {
                        0
                    } else {
                        estimated_runtime.min_runtime_secs() / interval_secs
                    }
                },
                _ => 0,
            },
            _ => 0,
        };
        match self.find_index(&canister_id) {
            Some(_) => {
                // The canister is already registered so ignore.
            },
            None => {
                let ghost pre = self.registry();
                let ghost key = canister_id@;
                let record = CanisterRecord::new(
                    opts.cycles_fetcher,
                    opts.strategy,
                    opts.obtain_cycles_options,
                    #[verifier::truncate]
                    (history_window_size as usize),
                );
                self.canisters.push((canister_id, record));
                proof {
                    let post = self.registry();
                    assert(post =~= pre.push((key, record@)));
                    assert forall|a: int, b: int|
                        0 <= a < b < post.len() implies post[a].0 != post[b].0 by {
                        if b == pre.len() {
                            assert(post[a] == pre[a]);
                            if pre[a].0 == key {
                                assert(contains_key(pre, key));
                            }
                        }
                    }
                }
            },
        }
    }

    /// Unregister a canister from being monitored by the fund manager.
    ///
    /// Returns the canister record if it was found; unregistering an unknown
    /// canister changes nothing.
    pub fn unregister(&mut self, canister_id: CanisterId) -> (r: Option<CanisterRecord>)
        requires
            old(self).well_formed(),
        ensures
            final(self).well_formed(),
            final(self).registry() == spec_unregister(old(self).registry(), canister_id@),
            r is Some <==> contains_key(old(self).registry(), canister_id@),
            r is Some ==> r->0@ == old(self).registry()[find_key(
                old(self).registry(),
                canister_id@,
            )].1,
            final(self).options_view() == old(self).options_view(),
            final(self).lock_held() == old(self).lock_held(),
    {
        match self.find_index(&canister_id) {
            Some(i) => {
                let ghost pre = self.registry();
                let (_, record) = self.canisters.remove(i);
                proof {
                    assert(self.registry() =~= pre.remove(i as int));
                    lemma_registry_remove(pre, i as int);
                    assert forall|j: int|
                        0 <= j < self.canisters@.len() implies #[trigger] self.canisters@[j].1.well_formed() by {
                        let jo: int = if j < i {
                            j
                        } else {
                            j + 1
                        };
                        assert(self.canisters@[j] == old(self).canisters@[jo]);
                    }
                }
                Some(record)
            },
            None => None,
        }
    }

    /// Returns copies of the canister records being monitored, in
    /// registration order.
    pub fn get_canisters(&self) -> (r: Vec<(CanisterId, CanisterRecord)>)
        requires
            self.well_formed(),
        ensures
            pairs_view(r@) == self.registry(),
    {
        let mut r: Vec<(CanisterId, CanisterRecord)> = Vec::new();
        let mut i: usize = 0;
        while i < self.canisters.len()
            invariant
                i <= self.canisters@.len(),
                self.well_formed(),
                r@.len() == i,
                pairs_view(r@) == self.registry().take(i as int),
            decreases self.canisters@.len() - i,
        {
            let entry = &self.canisters[i];
            let id = entry.0.clone();
            let record = entry.1.clone();
            r.push((id, record));
            proof {
                assert(r@.len() == i + 1);
                assert(r@[i as int].0@ == self.canisters@[i as int].0@);
                assert(r@[i as int].1@ == self.canisters@[i as int].1@);
                assert(pairs_view(r@)[i as int] == self.registry()[i as int]);
                assert(pairs_view(r@) =~= self.registry().take(i as int + 1));
            }
            i += 1;
        }
        proof {
            assert(self.registry().take(self.registry().len() as int) =~= self.registry());
        }
        r
    }

    /// Returns a copy of the canister record for the specified canister id.
    pub fn get_canister(&self, canister_id: &CanisterId) -> (r: Option<CanisterRecord>)
        requires
            self.well_formed(),
        ensures
            r is Some <==> contains_key(self.registry(), canister_id@),
            r is Some ==> r->0@ == self.registry()[find_key(self.registry(), canister_id@)].1,
    {
        match self.find_index(canister_id) {
            Some(i) => Some(self.canisters[i].1.clone()),
            None => None,
        }
    }
}

/// How many times one orchestration pass tries to obtain cycles before it
/// records the failure.
pub const MAX_OBTAIN_CYCLES_TRIES: u64 = 4;

/// The key under which the scheduled monitoring tick holds the execution
/// lock.
pub open spec fn spec_monitoring_lock_key() -> Seq<u8> {
    "execute_scheduled_monitoring".spec_bytes()
}

/// Returns the key under which the scheduled monitoring tick holds the
/// execution lock.
pub fn monitoring_lock_key() -> (r: Vec<u8>)
    ensures
        r@ == spec_monitoring_lock_key(),
{
    crate::ids::slice_to_vec_u8("execute_scheduled_monitoring".as_bytes())
}

/// A record with its funding failure cleared.
pub open spec fn cleared_failure(v: RecordView) -> RecordView {
    RecordView { funding_failure: None::<crate::record::FundingFailureView>, ..v }
}

/// The registry with every record's funding failure cleared.
pub open spec fn reset_failures(reg: RegistryView) -> RegistryView {
    reg.map_values(|p: (Seq<u8>, RecordView)| (p.0, cleared_failure(p.1)))
}

/// The strategy in force for a record: its own override, else the global one.
pub open spec fn effective_strategy(record: RecordView, global_strategy: FundStrategy) -> FundStrategy {
    match record.strategy {
        Some(s) => s,
        None => global_strategy,
    }
}

/// Whether an obtain attempt is repeated: only when the failure was retryable
/// and tries are left.
pub fn should_retry_obtain(tries_left: u64, can_retry: bool) -> (r: bool)
    ensures
        r == (can_retry && tries_left > 0),
{
    can_retry && tries_left > 0
}

/// Whether starting the fund manager also schedules an immediate first tick:
/// only with a running interval and no delayed start asked for.
pub fn should_start_immediately(interval_secs: u64, delayed_start: bool) -> (r: bool)
    ensures
        r == (interval_secs != 0 && !delayed_start),
{
    interval_secs != 0 && !delayed_start
}

/// The average burn rate the registry reports for an identifier, zero when it
/// is not registered.
pub open spec fn spec_record_avg(reg: RegistryView, key: Seq<u8>) -> u128 {
    if contains_key(reg, key) {
        spec_average(reg[find_key(reg, key)].1.samples) as u128
    } else {
        0
    }
}

/// The strategy in force for an identifier: the record's override if it is
/// registered and carries one, else the global strategy.
pub open spec fn spec_record_strategy(
    reg: RegistryView,
    key: Seq<u8>,
    global_strategy: FundStrategy,
) -> FundStrategy {
    if contains_key(reg, key) {
        effective_strategy(reg[find_key(reg, key)].1, global_strategy)
    } else {
        global_strategy
    }
}

/// The cycle-obtaining override of an identifier's record, if any.
pub open spec fn spec_record_obtain(reg: RegistryView, key: Seq<u8>) -> Option<
    ObtainCyclesOptionsView,
> {
    if contains_key(reg, key) {
        reg[find_key(reg, key)].1.obtain_cycles_options
    } else {
        None
    }
}

/// Whether transferring `needed` cycles out would leave the funding canister
/// itself in need of funds: the strategy in force for the self record is
/// evaluated against the hypothetical remaining balance.
pub open spec fn spec_self_needs_cycles(
    reg: RegistryView,
    global_strategy: FundStrategy,
    self_id: Seq<u8>,
    self_balance: u128,
    needed: u128,
    now: u64,
) -> bool {
    spec_needed_cycles(
        CyclesBalance {
            amount: crate::num::sat_sub_u128(self_balance, needed),
            timestamp: now,
        },
        spec_record_avg(reg, self_id),
        spec_record_strategy(reg, self_id, global_strategy),
    ) > 0
}

/// The abstract value of a funding route.
pub ghost enum FundingRouteView {
    DepositDirect,
    ObtainVia(ObtainCyclesOptionsView),
    FailInsufficient,
}

/// How a needed deposit is carried out: directly, through a configured cycle
/// source when the funding canister itself must be topped up first, or not at
/// all when that is needed but no source is configured.
pub enum FundingRoute {
    /// Deposit the cycles directly from the funding canister's balance.
    DepositDirect,
    /// Obtain cycles through the given source before depositing.
    ObtainVia(ObtainCyclesOptions),
    /// The funding canister is low and no cycle source is configured: record
    /// an insufficient-cycles failure.
    FailInsufficient,
}

impl View for FundingRoute {
    type V = FundingRouteView;

    open spec fn view(&self) -> FundingRouteView {
        match self {
            FundingRoute::DepositDirect => FundingRouteView::DepositDirect,
            FundingRoute::ObtainVia(o) => FundingRouteView::ObtainVia(o@),
            FundingRoute::FailInsufficient => FundingRouteView::FailInsufficient,
        }
    }
}

/// The funding route for one canister: the self-top-up path is taken for the
/// funding canister itself, and for others when depositing would leave the
/// funding canister in need; the source is the target record's override, else
/// the self record's, else the global one.
pub open spec fn spec_plan_funding(
    reg: RegistryView,
    opts: crate::options::FundManagerOptionsView,
    key: Seq<u8>,
    needed: u128,
    self_id: Seq<u8>,
    self_balance: u128,
    now: u64,
) -> FundingRouteView {
    let self_route = key == self_id || spec_self_needs_cycles(
        reg,
        opts.strategy,
        self_id,
        self_balance,
        needed,
        now,
    );
    if self_route {
        let source = match spec_record_obtain(reg, key) {
            Some(o) => Some(o),
            None => match spec_record_obtain(reg, self_id) {
                Some(o) => Some(o),
                None => opts.obtain_cycles_options,
            },
        };
        match source {
            Some(o) => FundingRouteView::ObtainVia(o),
            None => FundingRouteView::FailInsufficient,
        }
    } else {
        FundingRouteView::DepositDirect
    }
}

impl FundManagerCore {
    /// Tries to begin a scheduled monitoring tick: acquires the execution
    /// lock, and with it held clears every record's funding failure. A tick
    /// already in progress leaves everything unchanged and yields no guard.
    pub fn try_begin_tick(&mut self) -> (r: Option<ProcessExecutionLockGuard>)
        requires
            old(self).well_formed(),
        ensures
            final(self).well_formed(),
            lock_post(
                old(self).lock_held(),
                final(self).lock_held(),
                spec_monitoring_lock_key(),
                r is Some,
            ),
            r is Some ==> r->0.key() == spec_monitoring_lock_key(),
            r is Some ==> final(self).registry() == reset_failures(old(self).registry()),
            r is None ==> final(self).registry() == old(self).registry(),
            final(self).options_view() == old(self).options_view(),
    {
        let guard = self.lock.lock(monitoring_lock_key());
        if guard.is_none() {
            return None;
        }
        let ghost pre = self.registry();
        let ghost entry_state = *self;
        let mut i: usize = 0;
        while i < self.canisters.len()
            invariant
                i <= self.canisters@.len(),
                self.canisters@.len() == pre.len(),
                unique_keys(pre),
                self.lock == entry_state.lock,
                self.options == entry_state.options,
                forall|j: int|
                    0 <= j < self.canisters@.len() ==> #[trigger] self.canisters@[j].1.well_formed(),
                forall|j: int| 0 <= j < i ==> self.registry()[j] == reset_failures(pre)[j],
                forall|j: int|
                    i <= j < self.canisters@.len() ==> #[trigger] self.registry()[j] == pre[j],
            decreases self.canisters@.len() - i,
        {
            let ghost snap = self.registry();
            let id = self.canisters[i].0.clone();
            let mut record = self.canisters[i].1.clone();
            record.reset_funding_failure();
            self.canisters.set(i, (id, record));
            proof {
                assert(snap[i as int] == pre[i as int]);
                assert(id@ == pre[i as int].0);
                assert(record@ == cleared_failure(pre[i as int].1));
                assert(self.registry()[i as int] == (id@, record@));
                assert(self.registry()[i as int] == reset_failures(pre)[i as int]);
                assert forall|j: int| 0 <= j < i + 1 implies self.registry()[j] == reset_failures(
                    pre,
                )[j] by {
                    if j < i {
                        assert(self.registry()[j] == snap[j]);
                    }
                };
                assert forall|j: int|
                    i + 1 <= j < self.canisters@.len() implies #[trigger] self.registry()[j]
                    == pre[j] by {
                    assert(self.registry()[j] == snap[j]);
                };
            }
            i += 1;
        }
        proof {
            assert(self.registry() =~= reset_failures(pre));
            assert(unique_keys(self.registry())) by {
                assert forall|a: int, b: int|
                    0 <= a < b < self.registry().len() implies self.registry()[a].0
                    != self.registry()[b].0 by {
                    assert(self.registry()[a].0 == pre[a].0);
                    assert(self.registry()[b].0 == pre[b].0);
                }
            };
        }
        guard
    }

    /// Ends a monitoring tick by releasing the execution lock.
    pub fn end_tick(&mut self, guard: ProcessExecutionLockGuard)
        requires
            old(self).well_formed(),
        ensures
            final(self).well_formed(),
            final(self).lock_held() == old(self).lock_held().remove(guard.key()),
            final(self).registry() == old(self).registry(),
            final(self).options_view() == old(self).options_view(),
    {
        self.lock.unlock(guard);
    }

    /// Returns each monitored canister's identifier and balance fetcher, in
    /// registration order, for the fetch phase of a tick.
    pub fn snapshot_fetchers(&self) -> (r: Vec<(CanisterId, BalanceFetcher)>)
        requires
            self.well_formed(),
        ensures
            r@.len() == self.registry().len(),
            forall|j: int|
                0 <= j < r@.len() ==> #[trigger] r@[j].0@ == self.registry()[j].0 && r@[j].1@
                    == self.registry()[j].1.cycles_fetcher,
    {
        let mut r: Vec<(CanisterId, BalanceFetcher)> = Vec::new();
        let mut i: usize = 0;
        while i < self.canisters.len()
            invariant
                i <= self.canisters@.len(),
                r@.len() == i,
                forall|j: int|
                    0 <= j < i ==> #[trigger] r@[j].0@ == self.registry()[j].0 && r@[j].1@
                        == self.registry()[j].1.cycles_fetcher,
            decreases self.canisters@.len() - i,
        {
            let entry = &self.canisters[i];
            r.push((entry.0.clone(), entry.1.get_cycles_fetcher()));
            i += 1;
        }
        r
    }

    /// The chunk size the fetch phase uses: the configured one, with a floor
    /// of one.
    pub fn effective_chunk_size(&self) -> (r: u64)
        ensures
            r == (if self.options_view().chunk_size == 0 {
                1u64
            } else {
                self.options_view().chunk_size
            }),
    {
        if self.options.chunk_size() == 0 {
            1
        } else {
            self.options.chunk_size()
        }
    }

    /// Takes one fetched balance into the registry. A successful fetch
    /// becomes a balance observation and yields how many cycles the canister
    /// needs under the strategy in force; a failed fetch is recorded as a
    /// balance-check failure. A canister no longer registered is ignored.
    pub fn record_fetch_result(
        &mut self,
        canister_id: &CanisterId,
        fetched: Result<u128, crate::errors::Error>,
        now: u64,
    ) -> (needed: u128)
        requires
            old(self).well_formed(),
        ensures
            final(self).well_formed(),
            final(self).options_view() == old(self).options_view(),
            final(self).lock_held() == old(self).lock_held(),
            !contains_key(old(self).registry(), canister_id@) ==> final(self).registry() == old(
                self,
            ).registry() && needed == 0,
            contains_key(old(self).registry(), canister_id@) ==> {
                let reg = old(self).registry();
                let i = find_key(reg, canister_id@);
                let post_record = final(self).registry()[i].1;
                &&& final(self).registry() == reg.update(i, (canister_id@, post_record))
                &&& match fetched {
                    Ok(balance) => {
                        &&& crate::record::set_cycles_post(
                            reg[i].1,
                            post_record,
                            CyclesBalance { amount: balance, timestamp: now },
                        )
                        &&& needed == spec_needed_cycles(
                            CyclesBalance { amount: balance, timestamp: now },
                            spec_average(post_record.samples) as u128,
                            effective_strategy(reg[i].1, old(self).options_view().strategy),
                        )
                    },
                    Err(_) => {
                        &&& post_record == (RecordView {
                            funding_failure: Some(
                                crate::record::FundingFailureView {
                                    error_code: crate::record::FundingErrorCodeView::BalanceCheckFailed,
                                    timestamp: now,
                                },
                            ),
                            ..reg[i].1
                        })
                        &&& needed == 0
                    },
                }
            },
    {
        let found = self.find_index(canister_id);
        match found {
            None => 0,
            Some(i) => {
                let ghost pre = self.registry();
                let id = self.canisters[i].0.clone();
                let mut record = self.canisters[i].1.clone();
                let needed: u128 = match fetched {
                    Ok(balance) => {
                        let observed = CyclesBalance::new(balance, now);
                        record.set_cycles(observed);
                        let avg = record.get_average_consumption();
                        let needed = match record.get_strategy() {
                            Some(strategy) => calc_needed_cycles(&observed, avg as u128, strategy),
                            None => calc_needed_cycles(
                                &observed,
                                avg as u128,
                                self.options.strategy(),
                            ),
                        };
                        needed
                    },
                    Err(_) => {
                        record.set_funding_failure(
                            crate::record::FundingErrorCode::BalanceCheckFailed,
                            now,
                        );
                        0
                    },
                };
                self.canisters.set(i, (id, record));
                proof {
                    lemma_find_key_some(pre, canister_id@);
                    assert(pre[i as int].0 == canister_id@);
                    let post_record = self.registry()[i as int].1;
                    assert(self.registry() =~= pre.update(
                        i as int,
                        (canister_id@, post_record),
                    ));
                    assert(unique_keys(self.registry())) by {
                        assert forall|a: int, b: int|
                            0 <= a < b < self.registry().len() implies self.registry()[a].0
                            != self.registry()[b].0 by {
                            assert(self.registry()[a].0 == pre[a].0);
                            assert(self.registry()[b].0 == pre[b].0);
                        }
                    };
                }
                needed
            },
        }
    }

    /// Decides how the needed cycles for a canister are provided, from the
    /// funding canister's own identifier and current balance.
    pub fn plan_funding(
        &self,
        canister_id: &CanisterId,
        needed_cycles: u128,
        self_id: &CanisterId,
        self_balance: u128,
        now: u64,
    ) -> (r: FundingRoute)
        requires
            self.well_formed(),
        ensures
            r@ == spec_plan_funding(
                self.registry(),
                self.options_view(),
                canister_id@,
                needed_cycles,
                self_id@,
                self_balance,
                now,
            ),
    {
        let is_self = crate::ids::bytes_eq(&canister_id.bytes, &self_id.bytes);
        let self_route = is_self || {
            let hypothetical = CyclesBalance::new(self_balance.saturating_sub(needed_cycles), now);
            let needed = match self.find_index(self_id) {
                Some(i) => {
                    let record = &self.canisters[i].1;
                    let avg = record.get_average_consumption();
                    match record.get_strategy() {
                        Some(strategy) => calc_needed_cycles(&hypothetical, avg as u128, strategy),
                        None => calc_needed_cycles(
                            &hypothetical,
                            avg as u128,
                            self.options.strategy(),
                        ),
                    }
                },
                None => calc_needed_cycles(&hypothetical, 0, self.options.strategy()),
            };
            needed > 0
        };
        if self_route {
            let target_source = match self.find_index(canister_id) {
                Some(i) => crate::obtain::clone_opt_obtain(
                    self.canisters[i].1.get_obtain_cycles_options(),
                ),
                None => None,
            };
            let source = match target_source {
                Some(o) => Some(o),
                None => {
                    let self_source = match self.find_index(self_id) {
                        Some(i) => crate::obtain::clone_opt_obtain(
                            self.canisters[i].1.get_obtain_cycles_options(),
                        ),
                        None => None,
                    };
                    match self_source {
                        Some(o) => Some(o),
                        None => crate::obtain::clone_opt_obtain(
                            self.options.obtain_cycles_options(),
                        ),
                    }
                },
            };
            match source {
                Some(o) => FundingRoute::ObtainVia(o),
                None => FundingRoute::FailInsufficient,
            }
        } else {
            FundingRoute::DepositDirect
        }
    }

    /// Accumulates a performed deposit into the canister's record: after a
    /// successful direct deposit or a successful obtain-and-deposit. A
    /// canister no longer registered is ignored.
    pub fn apply_deposit(&mut self, canister_id: &CanisterId, amount: u128, now: u64)
        requires
            old(self).well_formed(),
        ensures
            final(self).well_formed(),
            final(self).options_view() == old(self).options_view(),
            final(self).lock_held() == old(self).lock_held(),
            !contains_key(old(self).registry(), canister_id@) ==> final(self).registry() == old(
                self,
            ).registry(),
            contains_key(old(self).registry(), canister_id@) ==> {
                let reg = old(self).registry();
                let i = find_key(reg, canister_id@);
                let post_record = final(self).registry()[i].1;
                &&& final(self).registry() == reg.update(i, (canister_id@, post_record))
                &&& crate::record::add_deposited_post(
                    reg[i].1,
                    post_record,
                    CyclesBalance { amount, timestamp: now },
                )
            },
    {
        let found = self.find_index(canister_id);
        match found {
            None => {},
            Some(i) => {
                let ghost pre = self.registry();
                let id = self.canisters[i].0.clone();
                let mut record = self.canisters[i].1.clone();
                record.add_deposited_cycles(CyclesBalance::new(amount, now));
                self.canisters.set(i, (id, record));
                proof {
                    lemma_find_key_some(pre, canister_id@);
                    assert(pre[i as int].0 == canister_id@);
                    let post_record = self.registry()[i as int].1;
                    assert(self.registry() =~= pre.update(
                        i as int,
                        (canister_id@, post_record),
                    ));
                    assert(unique_keys(self.registry())) by {
                        assert forall|a: int, b: int|
                            0 <= a < b < self.registry().len() implies self.registry()[a].0
                            != self.registry()[b].0 by {
                            assert(self.registry()[a].0 == pre[a].0);
                            assert(self.registry()[b].0 == pre[b].0);
                        }
                    };
                }
            },
        }
    }

    /// Records why funding a canister failed during this tick. A canister no
    /// longer registered is ignored.
    pub fn apply_funding_failure(
        &mut self,
        canister_id: &CanisterId,
        error_code: crate::record::FundingErrorCode,
        now: u64,
    )
        requires
            old(self).well_formed(),
        ensures
            final(self).well_formed(),
            final(self).options_view() == old(self).options_view(),
            final(self).lock_held() == old(self).lock_held(),
            !contains_key(old(self).registry(), canister_id@) ==> final(self).registry() == old(
                self,
            ).registry(),
            contains_key(old(self).registry(), canister_id@) ==> {
                let reg = old(self).registry();
                let i = find_key(reg, canister_id@);
                &&& final(self).registry() == reg.update(
                    i,
                    (
                        canister_id@,
                        RecordView {
                            funding_failure: Some(
                                crate::record::FundingFailureView {
                                    error_code: error_code@,
                                    timestamp: now,
                                },
                            ),
                            ..reg[i].1
                        },
                    ),
                )
            },
    {
        let found = self.find_index(canister_id);
        match found {
            None => {},
            Some(i) => {
                let ghost pre = self.registry();
                let id = self.canisters[i].0.clone();
                let mut record = self.canisters[i].1.clone();
                record.set_funding_failure(error_code, now);
                self.canisters.set(i, (id, record));
                proof {
                    lemma_find_key_some(pre, canister_id@);
                    assert(pre[i as int].0 == canister_id@);
                    let post_record = self.registry()[i as int].1;
                    assert(self.registry() =~= pre.update(
                        i as int,
                        (canister_id@, post_record),
                    ));
                    assert(unique_keys(self.registry())) by {
                        assert forall|a: int, b: int|
                            0 <= a < b < self.registry().len() implies self.registry()[a].0
                            != self.registry()[b].0 by {
                            assert(self.registry()[a].0 == pre[a].0);
                            assert(self.registry()[b].0 == pre[b].0);
                        }
                    };
                }
            },
        }
    }
}


} // verus!


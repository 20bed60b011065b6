//! Funding strategies and the fund manager's global options.

use vstd::prelude::*;

use crate::obtain::ObtainCyclesOptions;

verus! {

/// Fund the canister when its balance falls to or below `min_cycles`.
#[derive(Clone, Copy, Debug, PartialEq, Eq, Structural)]
pub struct CyclesThreshold {
    /// The balance at or below which the canister is funded.
    pub min_cycles: u128,
    /// The amount deposited when funding triggers.
    pub fund_cycles: u128,
}

impl CyclesThreshold {
    /// Constructs a threshold strategy with both amounts set to zero.
    pub fn new() -> (r: Self)
        ensures
            r == (CyclesThreshold { min_cycles: 0, fund_cycles: 0 }),
    {
        Self { min_cycles: 0, fund_cycles: 0 }
    }

    /// Sets the balance at or below which the canister is funded.
    pub fn with_min_cycles(self, min_cycles: u128) -> (r: Self)
        ensures
            r == (CyclesThreshold { min_cycles, ..self }),
    {
        Self { min_cycles, ..self }
    }

    /// Sets the amount deposited when funding triggers.
    pub fn with_fund_cycles(self, fund_cycles: u128) -> (r: Self)
        ensures
            r == (CyclesThreshold { fund_cycles, ..self }),
    {
        Self { fund_cycles, ..self }
    }

    /// Returns the balance at or below which the canister is funded.
    pub fn min_cycles(&self) -> (r: u128)
        ensures
            r == self.min_cycles,
    {
        self.min_cycles
    }

    /// Returns the amount deposited when funding triggers.
    pub fn fund_cycles(&self) -> (r: u128)
        ensures
            r == self.fund_cycles,
    {
        self.fund_cycles
    }
}

/// Fund the canister when its estimated runtime left, derived from its
/// average burn rate, falls to or below a minimum.
#[derive(Clone, Copy, Debug, PartialEq, Eq, Structural)]
pub struct EstimatedRuntime {
    /// The estimated runtime, in seconds, at or below which the canister is
    /// funded.
    pub min_runtime_secs: u64,
    /// The runtime, in seconds, worth of cycles deposited when funding
    /// triggers.
    pub fund_runtime_secs: u64,
    /// A cap on the deposited amount, to prevent over-funding.
    pub max_runtime_cycles_fund: u128,
    /// The balance at or below which the fallback amount is deposited.
    pub fallback_min_cycles: u128,
    /// The amount deposited on the fallback path.
    pub fallback_fund_cycles: u128,
}

impl EstimatedRuntime {
    /// Constructs an estimated-runtime strategy with zero thresholds and an
    /// unbounded funding cap.
    pub fn new() -> (r: Self)
        ensures
            r == (EstimatedRuntime {
                min_runtime_secs: 0,
                fund_runtime_secs: 0,
                max_runtime_cycles_fund: u128::MAX,
                fallback_min_cycles: 0,
                fallback_fund_cycles: 0,
            }),
    {
        Self {
            min_runtime_secs: 0,
            fund_runtime_secs: 0,
            max_runtime_cycles_fund: u128::MAX,
            fallback_min_cycles: 0,
            fallback_fund_cycles: 0,
        }
    }

    /// Sets the estimated runtime at or below which the canister is funded.
    pub fn with_min_runtime_secs(self, min_runtime_secs: u64) -> (r: Self)
        ensures
            r == (EstimatedRuntime { min_runtime_secs, ..self }),
    {
        Self { min_runtime_secs, ..self }
    }

    /// Sets the runtime worth of cycles deposited when funding triggers.
    pub fn with_fund_runtime_secs(self, fund_runtime_secs: u64) -> (r: Self)
        ensures
            r == (EstimatedRuntime { fund_runtime_secs, ..self }),
    {
        Self { fund_runtime_secs, ..self }
    }

    /// Sets the cap on the deposited amount.
    pub fn with_max_runtime_cycles_fund(self, max_runtime_cycles_fund: u128) -> (r: Self)
        ensures
            r == (EstimatedRuntime { max_runtime_cycles_fund, ..self }),
    {
        Self { max_runtime_cycles_fund, ..self }
    }

    /// Sets the balance at or below which the fallback amount is deposited.
    pub fn with_fallback_min_cycles(self, fallback_min_cycles: u128) -> (r: Self)
        ensures
            r == (EstimatedRuntime { fallback_min_cycles, ..self }),
    {
        Self { fallback_min_cycles, ..self }
    }

    /// Sets the amount deposited on the fallback path.
    pub fn with_fallback_fund_cycles(self, fallback_fund_cycles: u128) -> (r: Self)
        ensures
            r == (EstimatedRuntime { fallback_fund_cycles, ..self }),
    {
        Self { fallback_fund_cycles, ..self }
    }

    /// Returns the estimated runtime at or below which the canister is funded.
    pub fn min_runtime_secs(&self) -> (r: u64)
        ensures
            r == self.min_runtime_secs,
    {
        self.min_runtime_secs
    }

    /// Returns the runtime worth of cycles deposited when funding triggers.
    pub fn fund_runtime_secs(&self) -> (r: u64)
        ensures
            r == self.fund_runtime_secs,
    {
        self.fund_runtime_secs
    }

    /// Returns the cap on the deposited amount.
    pub fn max_runtime_cycles_fund(&self) -> (r: u128)
        ensures
            r == self.max_runtime_cycles_fund,
    {
        self.max_runtime_cycles_fund
    }

    /// Returns the balance at or below which the fallback amount is deposited.
    pub fn fallback_min_cycles(&self) -> (r: u128)
        ensures
            r == self.fallback_min_cycles,
    {
        self.fallback_min_cycles
    }

    /// Returns the amount deposited on the fallback path.
    pub fn fallback_fund_cycles(&self) -> (r: u128)
        ensures
            r == self.fallback_fund_cycles,
    {
        self.fallback_fund_cycles
    }
}

/// How the needed deposit for a canister is decided.
#[derive(Clone, Copy, Debug, PartialEq, Eq, Structural)]
pub enum FundStrategy {
    /// Always request the given amount.
    Always(u128),
    /// Request a fixed amount when the balance falls to or below a threshold.
    BelowThreshold(CyclesThreshold),
    /// Request a burn-rate-derived amount when the estimated runtime left
    /// falls to or below a minimum.
    BelowEstimatedRuntime(EstimatedRuntime),
}

/// The abstract value of the fund manager's global options.
pub ghost struct FundManagerOptionsView {
    pub interval_secs: u64,
    pub chunk_size: u64,
    pub delayed_start: bool,
    pub strategy: FundStrategy,
    pub obtain_cycles_options: Option<crate::obtain::ObtainCyclesOptionsView>,
}

/// The global options of the fund manager.
#[derive(Debug)]
pub struct FundManagerOptions {
    /// The monitoring period in seconds.
    pub interval_secs: u64,
    /// How many balance fetches are issued concurrently per chunk.
    pub chunk_size: u64,
    /// If true, the immediate initial tick on start is skipped.
    pub delayed_start: bool,
    /// The strategy applied to canisters without a per-canister override.
    pub strategy: FundStrategy,
    /// The default way to obtain cycles for the funding canister itself.
    pub obtain_cycles_options: Option<ObtainCyclesOptions>,
}

impl View for FundManagerOptions {
    type V = FundManagerOptionsView;

    open spec fn view(&self) -> FundManagerOptionsView {
        FundManagerOptionsView {
            interval_secs: self.interval_secs,
            chunk_size: self.chunk_size,
            delayed_start: self.delayed_start,
            strategy: self.strategy,
            obtain_cycles_options: crate::obtain::opt_obtain_view(self.obtain_cycles_options),
        }
    }
}

impl Clone for FundManagerOptions {
    fn clone(&self) -> (r: Self)
        ensures
            r.interval_secs == self.interval_secs,
            r.chunk_size == self.chunk_size,
            r.delayed_start == self.delayed_start,
            r.strategy == self.strategy,
            crate::obtain::opt_obtain_view(r.obtain_cycles_options) == crate::obtain::opt_obtain_view(
                self.obtain_cycles_options,
            ),
    {
        Self {
            interval_secs: self.interval_secs,
            chunk_size: self.chunk_size,
            delayed_start: self.delayed_start,
            strategy: self.strategy,
            obtain_cycles_options: crate::obtain::clone_opt_obtain(&self.obtain_cycles_options),
        }
    }
}

impl FundManagerOptions {
    /// Constructs the default options: a twice-a-day interval, a chunk size
    /// of 20, an immediate initial tick, a threshold strategy that never
    /// funds, and no way to obtain cycles.
    pub fn new() -> (r: Self)
        ensures
            r.interval_secs == 43200,
            r.chunk_size == 20,
            r.delayed_start == false,
            r.strategy == FundStrategy::BelowThreshold(
                CyclesThreshold { min_cycles: 0, fund_cycles: 0 },
            ),
            r.obtain_cycles_options is None,
    {
        Self {
            interval_secs: 43200,
            chunk_size: 20,
            delayed_start: false,
            strategy: FundStrategy::BelowThreshold(CyclesThreshold::new()),
            obtain_cycles_options: None,
        }
    }

    /// Sets the monitoring period in seconds.
    pub fn with_interval_secs(self, interval_secs: u64) -> (r: Self)
        ensures
            r == (FundManagerOptions { interval_secs, ..self }),
    {
        Self { interval_secs, ..self }
    }

    /// Sets how many balance fetches are issued concurrently per chunk.
    pub fn with_chunk_size(self, chunk_size: u64) -> (r: Self)
        ensures
            r == (FundManagerOptions { chunk_size, ..self }),
    {
        Self { chunk_size, ..self }
    }

    /// Sets whether the immediate initial tick on start is skipped.
    pub fn with_delayed_start(self, delayed_start: bool) -> (r: Self)
        ensures
            r == (FundManagerOptions { delayed_start, ..self }),
    {
        Self { delayed_start, ..self }
    }

    /// Sets the strategy applied to canisters without an override.
    pub fn with_strategy(self, strategy: FundStrategy) -> (r: Self)
        ensures
            r == (FundManagerOptions { strategy, ..self }),
    {
        Self { strategy, ..self }
    }

    /// Sets the default way to obtain cycles.
    pub fn with_obtain_cycles_options(self, obtain_cycles_options: ObtainCyclesOptions) -> (r:
        Self)
        ensures
            r == (FundManagerOptions {
                obtain_cycles_options: Some(obtain_cycles_options),
                ..self
            }),
    {
        Self { obtain_cycles_options: Some(obtain_cycles_options), ..self }
    }

    /// Returns the monitoring period in seconds.
    pub fn interval_secs(&self) -> (r: u64)
        ensures
            r == self.interval_secs,
    {
        self.interval_secs
    }

    /// Returns how many balance fetches are issued concurrently per chunk.
    pub fn chunk_size(&self) -> (r: u64)
        ensures
            r == self.chunk_size,
    {
        self.chunk_size
    }

    /// Returns whether the immediate initial tick on start is skipped.
    pub fn delayed_start(&self) -> (r: bool)
        ensures
            r == self.delayed_start,
    {
        self.delayed_start
    }

    /// Returns the strategy applied to canisters without an override.
    pub fn strategy(&self) -> (r: &FundStrategy)
        ensures
            r == self.strategy,
    {
        &self.strategy
    }

    /// Returns the default way to obtain cycles.
    pub fn obtain_cycles_options(&self) -> (r: &Option<ObtainCyclesOptions>)
        ensures
            r == self.obtain_cycles_options,
    {
        &self.obtain_cycles_options
    }
}

} // verus!

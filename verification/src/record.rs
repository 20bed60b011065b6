//! Per-monitored-canister state: balance snapshots, deposit counters, the
//! consumption history, and the last funding failure.

use vstd::prelude::*;

use crate::fetch::{BalanceFetcher, FetcherView};
use crate::history::{spec_add_sample, spec_average, ConsumptionHistory};
use crate::num::{sat_add_u128, sat_mul_u128, sat_sub_u128, sat_sub_u64};
use crate::obtain::{opt_obtain_view, ObtainCyclesOptions, ObtainCyclesOptionsView};
use crate::options::FundStrategy;

verus! {

/// A cycles balance observed at a point in time.
#[derive(Clone, Copy, Debug, PartialEq, Eq, Structural)]
pub struct CyclesBalance {
    /// The cycles balance of the canister.
    pub amount: u128,
    /// The timestamp when the cycles were last updated, in nanoseconds.
    pub timestamp: u64,
}

impl CyclesBalance {
    /// Constructs a new CyclesBalance with the specified amount and timestamp.
    pub fn new(amount: u128, timestamp: u64) -> (r: Self)
        ensures
            r == (CyclesBalance { amount, timestamp }),
    {
        Self { amount, timestamp }
    }
}

impl Default for CyclesBalance {
    fn default() -> (r: Self)
        ensures
            r == (CyclesBalance { amount: 0, timestamp: 0 }),
    {
        Self { amount: 0, timestamp: 0 }
    }
}

/// The abstract value of a funding-failure code.
pub ghost enum FundingErrorCodeView {
    InsufficientCycles,
    DepositFailed,
    ObtainCyclesFailed,
    BalanceCheckFailed,
    Other(Seq<char>),
}

/// Why funding a canister failed during a monitoring tick.
#[derive(Debug)]
pub enum FundingErrorCode {
    /// The funding canister itself has too few cycles and no way to obtain
    /// more is configured.
    InsufficientCycles,
    /// The deposit of cycles failed.
    DepositFailed,
    /// Obtaining cycles for the funding canister failed.
    ObtainCyclesFailed,
    /// Fetching the cycles balance failed.
    BalanceCheckFailed,
    /// Another error, with a custom message.
    Other(String),
}

impl View for FundingErrorCode {
    type V = FundingErrorCodeView;

    open spec fn view(&self) -> FundingErrorCodeView {
        match self {
            FundingErrorCode::InsufficientCycles => FundingErrorCodeView::InsufficientCycles,
            FundingErrorCode::DepositFailed => FundingErrorCodeView::DepositFailed,
            FundingErrorCode::ObtainCyclesFailed => FundingErrorCodeView::ObtainCyclesFailed,
            FundingErrorCode::BalanceCheckFailed => FundingErrorCodeView::BalanceCheckFailed,
            FundingErrorCode::Other(msg) => FundingErrorCodeView::Other(msg@),
        }
    }
}

impl Clone for FundingErrorCode {
    fn clone(&self) -> (r: Self)
        ensures
            r@ == self@,
    {
        match self {
            FundingErrorCode::InsufficientCycles => FundingErrorCode::InsufficientCycles,
            FundingErrorCode::DepositFailed => FundingErrorCode::DepositFailed,
            FundingErrorCode::ObtainCyclesFailed => FundingErrorCode::ObtainCyclesFailed,
            FundingErrorCode::BalanceCheckFailed => FundingErrorCode::BalanceCheckFailed,
            FundingErrorCode::Other(msg) => FundingErrorCode::Other(msg.clone()),
        }
    }
}

impl PartialEq for FundingErrorCode {
    fn eq(&self, other: &Self) -> (r: bool) {
        match (self, other) {
            (FundingErrorCode::InsufficientCycles, FundingErrorCode::InsufficientCycles) => true,
            (FundingErrorCode::DepositFailed, FundingErrorCode::DepositFailed) => true,
            (FundingErrorCode::ObtainCyclesFailed, FundingErrorCode::ObtainCyclesFailed) => true,
            (FundingErrorCode::BalanceCheckFailed, FundingErrorCode::BalanceCheckFailed) => true,
            (FundingErrorCode::Other(m1), FundingErrorCode::Other(m2)) => *m1 == *m2,
            _ => false,
        }
    }
}

impl Eq for FundingErrorCode {

}

impl vstd::std_specs::cmp::PartialEqSpecImpl for FundingErrorCode {
    open spec fn obeys_eq_spec() -> bool {
        true
    }

    open spec fn eq_spec(&self, other: &Self) -> bool {
        self@ == other@
    }
}

/// The message each funding-failure code carries.
pub open spec fn spec_failure_message(code: FundingErrorCodeView) -> Seq<char> {
    match code {
        FundingErrorCodeView::InsufficientCycles => "Insufficient cycles in the funding canister."@,
        FundingErrorCodeView::DepositFailed => "The deposit of cycles failed."@,
        FundingErrorCodeView::ObtainCyclesFailed => "Obtaining cycles for the canister failed."@,
        FundingErrorCodeView::BalanceCheckFailed => "Fetching cycles balance failed."@,
        FundingErrorCodeView::Other(msg) => msg,
    }
}

impl FundingErrorCode {
    /// Returns a human-readable error message for the error code.
    pub fn message(&self) -> (r: String)
        ensures
            r@ == spec_failure_message(self@),
    {
        match self {
            FundingErrorCode::InsufficientCycles => "Insufficient cycles in the funding canister."
                .to_owned(),
            FundingErrorCode::DepositFailed => "The deposit of cycles failed.".to_owned(),
            FundingErrorCode::ObtainCyclesFailed => "Obtaining cycles for the canister failed."
                .to_owned(),
            FundingErrorCode::BalanceCheckFailed => "Fetching cycles balance failed.".to_owned(),
            FundingErrorCode::Other(msg) => msg.clone(),
        }
    }
}

/// The abstract value of a funding failure.
pub ghost struct FundingFailureView {
    pub error_code: FundingErrorCodeView,
    pub timestamp: u64,
}

/// The funding failure record.
#[derive(Debug)]
pub struct FundingFailure {
    /// The code of the reason for the funding failure.
    pub error_code: FundingErrorCode,
    /// The timestamp of the failure.
    pub timestamp: u64,
}

impl View for FundingFailure {
    type V = FundingFailureView;

    open spec fn view(&self) -> FundingFailureView {
        FundingFailureView { error_code: self.error_code@, timestamp: self.timestamp }
    }
}

impl Clone for FundingFailure {
    fn clone(&self) -> (r: Self)
        ensures
            r@ == self@,
    {
        Self { error_code: self.error_code.clone(), timestamp: self.timestamp }
    }
}

/// The abstract value of an optional funding failure.
pub open spec fn opt_failure_view(o: Option<FundingFailure>) -> Option<FundingFailureView> {
    match o {
        Some(f) => Some(f@),
        None => None,
    }
}

/// The per-second burn-rate sample derived from two successive balance
/// observations. A grown balance or a non-advancing clock yields 0; the
/// nanosecond-scaled quotient is truncated to 64 bits.
pub open spec fn burn_sample(prev: CyclesBalance, new: CyclesBalance) -> u64 {
    let diff = sat_sub_u128(prev.amount, new.amount);
    let scaled = sat_mul_u128(diff, 1_000_000_000);
    let delta = sat_sub_u64(new.timestamp, prev.timestamp);
    if delta == 0 {
        0
    } else {
        (scaled / delta as u128) as u64
    }
}

/// The abstract state of a canister record.
#[verifier::ext_equal]
pub ghost struct RecordView {
    pub cycles: Option<CyclesBalance>,
    pub previous_cycles: Option<CyclesBalance>,
    pub samples: Seq<u64>,
    pub window_size: usize,
    pub deposited_cycles: Option<CyclesBalance>,
    pub last_deposited_cycles: Option<CyclesBalance>,
    pub cycles_fetcher: FetcherView,
    pub strategy: Option<FundStrategy>,
    pub obtain_cycles_options: Option<ObtainCyclesOptionsView>,
    pub funding_failure: Option<FundingFailureView>,
}

/// The cumulative deposited amount a record reports, zero when nothing was
/// deposited yet.
pub open spec fn deposited_amount(v: RecordView) -> u128 {
    match v.deposited_cycles {
        Some(c) => c.amount,
        None => 0,
    }
}

/// The per-monitored-canister mutable state.
pub struct CanisterRecord {
    /// The canister cycles balance record for the last check.
    cycles: Option<CyclesBalance>,
    /// The canister cycles balance record before the latest update.
    previous_cycles: Option<CyclesBalance>,
    /// The cycles consumption history of the canister.
    consumption_history: ConsumptionHistory,
    /// The cumulative total of cycles deposited to the canister.
    deposited_cycles: Option<CyclesBalance>,
    /// The last deposited cycles to the canister.
    last_deposited_cycles: Option<CyclesBalance>,
    /// The way to fetch the canister cycles balance.
    cycles_fetcher: BalanceFetcher,
    /// Optional fund strategy for the canister, overriding the global one.
    strategy: Option<FundStrategy>,
    /// Optional cycle-obtaining override for the canister.
    obtain_cycles_options: Option<ObtainCyclesOptions>,
    /// Tracks the state of funding failures for the canister.
    funding_failure: Option<FundingFailure>,
}

impl View for CanisterRecord {
    type V = RecordView;

    closed spec fn view(&self) -> RecordView {
        RecordView {
            cycles: self.cycles,
            previous_cycles: self.previous_cycles,
            samples: self.consumption_history.samples(),
            window_size: self.consumption_history.window_size(),
            deposited_cycles: self.deposited_cycles,
            last_deposited_cycles: self.last_deposited_cycles,
            cycles_fetcher: self.cycles_fetcher@,
            strategy: self.strategy,
            obtain_cycles_options: opt_obtain_view(self.obtain_cycles_options),
            funding_failure: opt_failure_view(self.funding_failure),
        }
    }
}

/// How `set_cycles` changes a record: the old observation moves to
/// `previous_cycles` and feeds a burn sample; the new one replaces it.
pub open spec fn set_cycles_post(pre: RecordView, post: RecordView, c: CyclesBalance) -> bool {
    &&& post.cycles == Some(c)
    &&& post.previous_cycles == (if pre.cycles is Some {
        pre.cycles
    } else {
        pre.previous_cycles
    })
    &&& post.samples == (if pre.cycles is Some {
        spec_add_sample(pre.samples, pre.window_size, burn_sample(pre.cycles->0, c))
    } else {
        pre.samples
    })
    &&& post.window_size == pre.window_size
    &&& post.deposited_cycles == pre.deposited_cycles
    &&& post.last_deposited_cycles == pre.last_deposited_cycles
    &&& post.cycles_fetcher == pre.cycles_fetcher
    &&& post.strategy == pre.strategy
    &&& post.obtain_cycles_options == pre.obtain_cycles_options
    &&& post.funding_failure == pre.funding_failure
}

/// How `add_deposited_cycles` changes a record: the cumulative counter grows
/// by the deposit (saturating) and takes its timestamp, the deposit is
/// remembered as the last one, and the observed balance is bumped so the next
/// burn sample is not polluted by the deposit itself.
pub open spec fn add_deposited_post(pre: RecordView, post: RecordView, d: CyclesBalance) -> bool {
    &&& post.deposited_cycles == (match pre.deposited_cycles {
        Some(t) => Some(CyclesBalance { amount: sat_add_u128(t.amount, d.amount), timestamp: d.timestamp }),
        None => Some(d),
    })
    &&& post.last_deposited_cycles == Some(d)
    &&& post.cycles == (match pre.cycles {
        Some(c) => Some(CyclesBalance { amount: sat_add_u128(c.amount, d.amount), timestamp: c.timestamp }),
        None => None::<CyclesBalance>,
    })
    &&& post.previous_cycles == pre.previous_cycles
    &&& post.samples == pre.samples
    &&& post.window_size == pre.window_size
    &&& post.cycles_fetcher == pre.cycles_fetcher
    &&& post.strategy == pre.strategy
    &&& post.obtain_cycles_options == pre.obtain_cycles_options
    &&& post.funding_failure == pre.funding_failure
}

impl CanisterRecord {
    /// Structural invariant: the consumption history is well-formed.
    pub closed spec fn well_formed(&self) -> bool {
        self.consumption_history.well_formed()
    }

    /// Constructs an empty record with the given fetcher, overrides, and
    /// consumption-history window size.
    pub fn new(
        cycles_fetcher: BalanceFetcher,
        strategy: Option<FundStrategy>,
        obtain_cycles_options: Option<ObtainCyclesOptions>,
        history_window_size: usize,
    ) -> (r: Self)
        ensures
            r.well_formed(),
            r@ == (RecordView {
                cycles: None::<CyclesBalance>,
                previous_cycles: None::<CyclesBalance>,
                samples: Seq::<u64>::empty(),
                window_size: history_window_size,
                deposited_cycles: None::<CyclesBalance>,
                last_deposited_cycles: None::<CyclesBalance>,
                cycles_fetcher: cycles_fetcher@,
                strategy: strategy,
                obtain_cycles_options: opt_obtain_view(obtain_cycles_options),
                funding_failure: None::<FundingFailureView>,
            }),
    {
        let r = Self {
            cycles: None,
            previous_cycles: None,
            consumption_history: ConsumptionHistory::new(history_window_size),
            deposited_cycles: None,
            last_deposited_cycles: None,
            cycles_fetcher,
            strategy,
            obtain_cycles_options,
            funding_failure: None,
        };
        proof {
            assert(r@ =~= (RecordView {
                cycles: None::<CyclesBalance>,
                previous_cycles: None::<CyclesBalance>,
                samples: Seq::<u64>::empty(),
                window_size: history_window_size,
                deposited_cycles: None::<CyclesBalance>,
                last_deposited_cycles: None::<CyclesBalance>,
                cycles_fetcher: cycles_fetcher@,
                strategy: strategy,
                obtain_cycles_options: opt_obtain_view(obtain_cycles_options),
                funding_failure: None::<FundingFailureView>,
            }));
        }
        r
    }

    /// Records a newly observed balance, feeding the burn sample derived from
    /// the previous observation into the consumption history.
    pub fn set_cycles(&mut self, cycles: CyclesBalance)
        requires
            old(self).well_formed(),
        ensures
            final(self).well_formed(),
            set_cycles_post(old(self)@, final(self)@, cycles),
    {
        if self.cycles.is_some() {
            let previous_cycles = self.cycles.unwrap();
            self.previous_cycles = Some(previous_cycles);
            let diff = previous_cycles.amount.saturating_sub(cycles.amount);
            let scaled = crate::num::saturating_mul_u128(diff, 1_000_000_000);
            let delta = cycles.timestamp.saturating_sub(previous_cycles.timestamp);
            let sample: u64 = if delta == 0 {
                0u64
            } else {
                #[verifier::truncate]
                ((scaled / delta as u128) as u64)
            };
            self.consumption_history.add_sample(sample);
        }
        self.cycles = Some(cycles);
    }

    /// Returns the last observed balance.
    pub fn get_cycles(&self) -> (r: &Option<CyclesBalance>)
        ensures
            *r == self@.cycles,
    {
        &self.cycles
    }

    /// Returns the balance observed before the latest update.
    pub fn get_previous_cycles(&self) -> (r: &Option<CyclesBalance>)
        ensures
            *r == self@.previous_cycles,
    {
        &self.previous_cycles
    }

    /// Accumulates a deposit into the record. The cumulative counter grows
    /// with saturation; the observed balance is bumped by the same amount so
    /// the deposit is not later mistaken for negative burn.
    pub fn add_deposited_cycles(&mut self, deposited_cycles: CyclesBalance)
        requires
            old(self).well_formed(),
        ensures
            final(self).well_formed(),
            add_deposited_post(old(self)@, final(self)@, deposited_cycles),
            deposited_amount(old(self)@) <= deposited_amount(final(self)@),
    {
        match &self.deposited_cycles {
            Some(total_deposited_cycles) => {
                self.deposited_cycles = Some(
                    CyclesBalance {
                        amount: total_deposited_cycles.amount.saturating_add(
                            deposited_cycles.amount,
                        ),
                        timestamp: deposited_cycles.timestamp,
                    },
                );
            },
            None => {
                self.deposited_cycles = Some(deposited_cycles);
            },
        }
        self.last_deposited_cycles = Some(deposited_cycles);
        match &self.cycles {
            Some(cycles) => {
                self.cycles = Some(
                    CyclesBalance {
                        amount: cycles.amount.saturating_add(deposited_cycles.amount),
                        timestamp: cycles.timestamp,
                    },
                );
            },
            None => {},
        }
    }

    /// Returns the cumulative total of cycles deposited to the canister.
    pub fn get_deposited_cycles(&self) -> (r: &Option<CyclesBalance>)
        ensures
            *r == self@.deposited_cycles,
    {
        &self.deposited_cycles
    }

    /// Returns the last deposited cycles.
    pub fn get_last_deposited_cycles(&self) -> (r: &Option<CyclesBalance>)
        ensures
            *r == self@.last_deposited_cycles,
    {
        &self.last_deposited_cycles
    }

    /// Returns a copy of the record's balance fetcher.
    pub fn get_cycles_fetcher(&self) -> (r: BalanceFetcher)
        ensures
            r@ == self@.cycles_fetcher,
    {
        self.cycles_fetcher.clone()
    }

    /// Returns the record's strategy override, if any.
    pub fn get_strategy(&self) -> (r: &Option<FundStrategy>)
        ensures
            *r == self@.strategy,
    {
        &self.strategy
    }

    /// Returns the record's cycle-obtaining override, if any.
    pub fn get_obtain_cycles_options(&self) -> (r: &Option<ObtainCyclesOptions>)
        ensures
            opt_obtain_view(*r) == self@.obtain_cycles_options,
    {
        &self.obtain_cycles_options
    }

    /// Returns the average consumption of the canister in cycles per second.
    pub fn get_average_consumption(&self) -> (r: u64)
        requires
            self.well_formed(),
        ensures
            r == spec_average(self@.samples),
    {
        self.consumption_history.average()
    }

    /// Returns the last funding failure, if any.
    pub fn get_funding_failure(&self) -> (r: Option<&FundingFailure>)
        ensures
            match r {
                Some(f) => self@.funding_failure == Some(f@),
                None => self@.funding_failure is None,
            },
    {
        self.funding_failure.as_ref()
    }

    /// Records a funding failure with the given code and timestamp.
    pub fn set_funding_failure(&mut self, error_code: FundingErrorCode, timestamp: u64)
        ensures
            final(self).well_formed() <==> old(self).well_formed(),
            final(self)@ == (RecordView {
                funding_failure: Some(FundingFailureView { error_code: error_code@, timestamp }),
                ..old(self)@
            }),
    {
        self.funding_failure = Some(FundingFailure { error_code, timestamp });
        proof {
            assert(final(self)@ =~= (RecordView {
                funding_failure: Some(FundingFailureView { error_code: error_code@, timestamp }),
                ..old(self)@
            }));
        }
    }

    /// Clears the funding failure.
    pub fn reset_funding_failure(&mut self)
        ensures
            final(self).well_formed() <==> old(self).well_formed(),
            final(self)@ == (RecordView { funding_failure: None::<FundingFailureView>, ..old(
                self,
            )@ }),
    {
        self.funding_failure = None;
        proof {
            assert(final(self)@ =~= (RecordView {
                funding_failure: None::<FundingFailureView>,
                ..old(self)@
            }));
        }
    }
}

impl Clone for CanisterRecord {
    fn clone(&self) -> (r: Self)
        ensures
            r@ == self@,
            r.well_formed() <==> self.well_formed(),
    {
        let r = Self {
            cycles: self.cycles,
            previous_cycles: self.previous_cycles,
            consumption_history: self.consumption_history.clone(),
            deposited_cycles: self.deposited_cycles,
            last_deposited_cycles: self.last_deposited_cycles,
            cycles_fetcher: self.cycles_fetcher.clone(),
            strategy: self.strategy,
            obtain_cycles_options: crate::obtain::clone_opt_obtain(&self.obtain_cycles_options),
            funding_failure: match &self.funding_failure {
                Some(f) => Some(f.clone()),
                None => None,
            },
        };
        proof {
            assert(r@ =~= self@);
        }
        r
    }
}

/// A burn sample taken right after a deposit is zero when the newly observed
/// balance is exactly the post-deposit balance: the deposit itself is never
/// mistaken for consumption.
pub proof fn lemma_deposit_then_observe_zero_sample(
    pre: RecordView,
    mid: RecordView,
    d: CyclesBalance,
    new: CyclesBalance,
)
    requires
        pre.cycles is Some,
        add_deposited_post(pre, mid, d),
        new.amount == mid.cycles->0.amount,
    ensures
        burn_sample(mid.cycles->0, new) == 0,
{
}

/// The cumulative deposited amount never decreases, whatever a record goes
/// through: a balance observation leaves it unchanged, and a deposit can only
/// grow it.
pub proof fn lemma_deposited_monotone(pre: RecordView, post: RecordView, c: CyclesBalance, d: CyclesBalance)
    requires
        set_cycles_post(pre, post, c) || add_deposited_post(pre, post, d),
    ensures
        deposited_amount(pre) <= deposited_amount(post),
{
}

} // verus!

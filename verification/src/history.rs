//! Fixed-window rolling average of per-second cycles burn.

use std::collections::VecDeque;
use vstd::prelude::*;

verus! {

broadcast use vstd::std_specs::vecdeque::group_vec_dequeue_axioms;

/// Mathematical sum of a sequence of samples.
pub open spec fn sum_of(s: Seq<u64>) -> int
    decreases s.len(),
{
    if s.len() == 0 {
        0
    } else {
        sum_of(s.drop_last()) + s.last()
    }
}

/// The sum of a sequence of 64-bit samples is bounded by its length times the
/// largest sample value.
pub proof fn lemma_sum_of_bound(s: Seq<u64>)
    ensures
        0 <= sum_of(s) <= s.len() * u64::MAX,
    decreases s.len(),
{
    if s.len() == 0 {
    } else {
        lemma_sum_of_bound(s.drop_last());
        assert((s.len() - 1) * u64::MAX + u64::MAX == s.len() * u64::MAX) by (nonlinear_arith);
    }
}

/// A rolling window of per-second cycles-burn samples with a running sum.
pub struct ConsumptionHistory {
    /// The history of the consumed cycles.
    samples: VecDeque<u64>,
    /// The sum of the consumed cycles.
    sum: u128,
    /// The number of history elements to keep.
    window_size: usize,
}

/// What the window holds after a sample is added: nothing changes on a zero
/// window; on a full window the oldest sample is evicted first.
pub open spec fn spec_add_sample(samples: Seq<u64>, window_size: usize, v: u64) -> Seq<u64> {
    if window_size == 0 {
        samples
    } else if samples.len() == window_size {
        samples.drop_first().push(v)
    } else {
        samples.push(v)
    }
}

/// The average the history reports: the truncated mean of the samples, or 0
/// when there are none.
pub open spec fn spec_average(s: Seq<u64>) -> u64 {
    if s.len() == 0 {
        0
    } else {
        (sum_of(s) / s.len() as int) as u64
    }
}

impl ConsumptionHistory {
    /// The samples currently in the window, oldest first.
    pub closed spec fn samples(&self) -> Seq<u64> {
        self.samples@
    }

    /// The configured window size.
    pub closed spec fn window_size(&self) -> usize {
        self.window_size
    }

    /// Structural invariant: the window is never overfull and the running sum
    /// is exactly the sum of the samples.
    pub closed spec fn well_formed(&self) -> bool {
        &&& self.samples@.len() <= self.window_size
        &&& self.sum == sum_of(self.samples@)
    }

    /// Constructs a new ConsumptionHistory with the specified window size.
    pub fn new(window_size: usize) -> (r: Self)
        ensures
            r.well_formed(),
            r.samples() == Seq::<u64>::empty(),
            r.window_size() == window_size,
    {
        let r = Self { samples: VecDeque::with_capacity(window_size), sum: 0, window_size };
        proof {
            assert(r.samples@ =~= Seq::<u64>::empty());
        }
        r
    }

    /// Adds a new sample to the history. With a window size of zero this is a
    /// no-op; with a full window the oldest sample is evicted first.
    pub fn add_sample(&mut self, consumption: u64)
        requires
            old(self).well_formed(),
        ensures
            final(self).well_formed(),
            final(self).window_size() == old(self).window_size(),
            final(self).samples() == spec_add_sample(
                old(self).samples(),
                old(self).window_size(),
                consumption,
            ),
    {
        if self.window_size == 0 {
            return ;
        }
        proof {
            lemma_sum_of_bound(self.samples@);
            assert(self.samples@.len() * u64::MAX < u128::MAX) by (nonlinear_arith)
                requires
                    self.samples@.len() <= usize::MAX,
            ;
        }
        if self.samples.len() == self.window_size {
            let oldest_sample = self.samples.pop_front().unwrap();
            proof {
                lemma_sum_drop_first(old(self).samples@);
                lemma_sum_of_bound(old(self).samples@.drop_first());
            }
            self.sum = self.sum - oldest_sample as u128;
        }
        self.samples.push_back(consumption);
        self.sum = self.sum + consumption as u128;
        proof {
            assert(self.samples@.drop_last() =~= if old(self).samples@.len()
                == old(self).window_size {
                old(self).samples@.drop_first()
            } else {
                old(self).samples@
            });
        }
    }

    /// Returns the average of the samples in the history.
    pub fn average(&self) -> (r: u64)
        requires
            self.well_formed(),
        ensures
            r == spec_average(self.samples()),
    {
        if self.samples.len() == 0 {
            return 0;
        }
        proof {
            lemma_sum_of_bound(self.samples@);
            assert(sum_of(self.samples@) / self.samples@.len() as int <= u64::MAX)
                by (nonlinear_arith)
                requires
                    0 <= sum_of(self.samples@) <= self.samples@.len() * u64::MAX,
                    self.samples@.len() > 0,
            ;
        }
        (self.sum / self.samples.len() as u128) as u64
    }
}

impl Clone for ConsumptionHistory {
    fn clone(&self) -> (r: Self)
        ensures
            r.samples() == self.samples(),
            r.window_size() == self.window_size(),
            r.well_formed() <==> self.well_formed(),
    {
        let mut samples: VecDeque<u64> = VecDeque::new();
        let mut i: usize = 0;
        while i < self.samples.len()
            invariant
                i <= self.samples@.len(),
                samples@ == self.samples@.subrange(0, i as int),
            decreases self.samples@.len() - i,
        {
            samples.push_back(self.samples[i]);
            proof {
                assert(samples@ =~= self.samples@.subrange(0, i as int + 1));
            }
            i += 1;
        }
        proof {
            assert(self.samples@.subrange(0, self.samples@.len() as int) =~= self.samples@);
        }
        Self { samples, sum: self.sum, window_size: self.window_size }
    }
}

/// Removing the first sample removes exactly its value from the sum.
proof fn lemma_sum_drop_first(s: Seq<u64>)
    requires
        s.len() > 0,
    ensures
        sum_of(s.drop_first()) == sum_of(s) - s[0],
    decreases s.len(),
{
    if s.len() == 1 {
        assert(s.drop_first() =~= Seq::<u64>::empty());
        assert(s.drop_last() =~= Seq::<u64>::empty());
        assert(sum_of(s) == sum_of(s.drop_last()) + s.last());
    } else {
        lemma_sum_drop_first(s.drop_last());
        assert(s.drop_first().drop_last() =~= s.drop_last().drop_first());
        assert(s.drop_last()[0] == s[0]);
        assert(s.drop_first().last() == s.last());
        assert(sum_of(s.drop_first()) == sum_of(s.drop_first().drop_last())
            + s.drop_first().last());
        assert(sum_of(s) == sum_of(s.drop_last()) + s.last());
        assert(sum_of(s.drop_last().drop_first()) == sum_of(s.drop_last()) - s.drop_last()[0]);
    }
}

/// However many samples were added, a well-formed history holds at most a
/// window's worth of them; its average is their truncated mean, zero when
/// there are none.
pub proof fn lemma_window_bound(h: ConsumptionHistory)
    requires
        h.well_formed(),
    ensures
        h.samples().len() <= h.window_size(),
        spec_average(h.samples()) == (if h.samples().len() == 0 {
            0int
        } else {
            sum_of(h.samples()) / h.samples().len() as int
        }),
{
    if h.samples().len() > 0 {
        lemma_sum_of_bound(h.samples());
        assert(sum_of(h.samples()) / h.samples().len() as int <= u64::MAX) by (nonlinear_arith)
            requires
                0 <= sum_of(h.samples()) <= h.samples().len() * u64::MAX,
                h.samples().len() > 0,
        ;
    }
}

/// With a window size of zero the history stays empty, so the reported
/// average is zero no matter what was added.
pub proof fn lemma_zero_window_average(h: ConsumptionHistory)
    requires
        h.well_formed(),
        h.window_size() == 0,
    ensures
        spec_average(h.samples()) == 0,
{
}

} // verus!

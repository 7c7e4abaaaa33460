use vstd::prelude::*;

use crate::rate::Rate;

verus! {

/// Addition on `u64` that sticks at the maximum instead of wrapping, so that
/// accumulating counts is total: it never fails, whatever has been added.
pub open spec fn sat_add_u64(a: u64, b: u64) -> u64 {
    if a + b <= u64::MAX {
        (a + b) as u64
    } else {
        u64::MAX
    }
}

/// A rolling events-per-second estimator.
///
/// Events are reported with [`RateEstimator::add`], which only accumulates a
/// count; the division happens in [`RateEstimator::update`], and only when at
/// least `interval_ms` milliseconds have elapsed since the last
/// recomputation. That keeps the per-event cost constant and the published
/// rate stepwise-smoothed rather than per-sample noisy.
#[derive(Clone, Copy, Debug, PartialEq, Eq, Structural)]
pub struct RateEstimator {
    /// Events recorded since the last recomputation.
    pub accumulated: u64,
    /// The rate published by the last qualifying recomputation.
    pub current_rate: Rate,
    /// When the rate was last recomputed, in milliseconds.
    pub last_update_at_ms: u64,
    /// The least time between two recomputations, in milliseconds.
    pub interval_ms: u64,
}

impl RateEstimator {
    /// Well-formed: a positive recomputation interval and a finite rate.
    pub open spec fn wf(self) -> bool {
        self.interval_ms > 0 && self.current_rate.wf()
    }

    /// The state a freshly constructed estimator is in.
    pub open spec fn fresh(now_ms: u64, interval_ms: u64) -> RateEstimator {
        RateEstimator {
            accumulated: 0,
            current_rate: Rate { events: 0, window_ms: 1 },
            last_update_at_ms: now_ms,
            interval_ms: interval_ms,
        }
    }

    /// The state after `add(count)`: only the accumulator moves.
    pub open spec fn added(self, count: u64) -> RateEstimator {
        RateEstimator {
            accumulated: sat_add_u64(self.accumulated, count),
            current_rate: self.current_rate,
            last_update_at_ms: self.last_update_at_ms,
            interval_ms: self.interval_ms,
        }
    }

    /// Whether `update(now_ms)` recomputes the rate: the clock must have
    /// advanced by at least the configured interval. A clock that stands
    /// still or runs backward never qualifies.
    pub open spec fn recomputes_at(self, now_ms: u64) -> bool {
        now_ms > self.last_update_at_ms
            && now_ms - self.last_update_at_ms >= self.interval_ms
    }

    /// The state after `update(now_ms)`: either a recomputation — the
    /// accumulated events over the elapsed window become the rate, the
    /// accumulator resets, the clock is remembered — or no change at all.
    pub open spec fn updated_at(self, now_ms: u64) -> RateEstimator {
        if self.recomputes_at(now_ms) {
            RateEstimator {
                accumulated: 0,
                current_rate: Rate {
                    events: self.accumulated,
                    window_ms: (now_ms - self.last_update_at_ms) as u64,
                },
                last_update_at_ms: now_ms,
                interval_ms: self.interval_ms,
            }
        } else {
            self
        }
    }

    /// Constructs an estimator that starts counting at `now_ms` and
    /// recomputes at most once every `interval_ms` milliseconds. The rate
    /// starts at exactly zero.
    pub fn new(now_ms: u64, interval_ms: u64) -> (r: RateEstimator)
        requires
            interval_ms > 0,
        ensures
            r == RateEstimator::fresh(now_ms, interval_ms),
            r.wf(),
            r.current_rate == (Rate { events: 0, window_ms: 1 }),
    {
        RateEstimator {
            accumulated: 0,
            current_rate: Rate::zero(),
            last_update_at_ms: now_ms,
            interval_ms: interval_ms,
        }
    }

    /// Records `count` further events. Constant time, never fails, never
    /// recomputes the rate; the count saturates rather than wraps.
    pub fn add(&mut self, count: u64)
        ensures
            *final(self) == old(self).added(count),
            final(self).current_rate == old(self).current_rate,
            old(self).wf() ==> final(self).wf(),
    {
        if self.accumulated <= u64::MAX - count {
            self.accumulated = self.accumulated + count;
        } else {
            self.accumulated = u64::MAX;
        }
    }

    /// Recomputes the rate if at least the configured interval has elapsed
    /// since the last recomputation; otherwise leaves the estimator exactly
    /// as it was. A timestamp at or before the last recomputation is
    /// absorbed as a no-op: no division, no negative or unbounded rate.
    pub fn update(&mut self, now_ms: u64)
        ensures
            *final(self) == old(self).updated_at(now_ms),
            old(self).wf() ==> final(self).wf(),
    {
        if now_ms > self.last_update_at_ms {
            let elapsed_ms = now_ms - self.last_update_at_ms;
            if elapsed_ms >= self.interval_ms {
                self.current_rate = Rate {
                    events: self.accumulated,
                    window_ms: elapsed_ms,
                };
                self.accumulated = 0;
                self.last_update_at_ms = now_ms;
            }
        }
    }

    /// The most recently computed rate; zero before the first qualifying
    /// update. Constant time, no side effect.
    pub fn rate(&self) -> (r: Rate)
        ensures
            r == self.current_rate,
    {
        self.current_rate
    }
}

/// The state after a whole sequence of `add` calls, one per element.
pub open spec fn added_all(e: RateEstimator, counts: Seq<u64>) -> RateEstimator
    decreases counts.len(),
{
    if counts.len() == 0 {
        e
    } else {
        added_all(e.added(counts[0]), counts.skip(1))
    }
}

/// The mathematical sum of a sequence of counts.
pub open spec fn sum_of(counts: Seq<u64>) -> int
    decreases counts.len(),
{
    if counts.len() == 0 {
        0
    } else {
        counts[0] + sum_of(counts.skip(1))
    }
}

/// A sum of unsigned counts is never negative.
pub proof fn lemma_sum_of_nonneg(counts: Seq<u64>)
    ensures
        sum_of(counts) >= 0,
    decreases counts.len(),
{
    if counts.len() > 0 {
        lemma_sum_of_nonneg(counts.skip(1));
    }
}

/// Appending one more `add` to a sequence of adds is the same as adding it
/// to the state the sequence reaches.
pub proof fn lemma_added_all_snoc(e: RateEstimator, counts: Seq<u64>, count: u64)
    ensures
        added_all(e, counts.push(count)) == added_all(e, counts).added(count),
    decreases counts.len(),
{
    reveal_with_fuel(added_all, 3);
    if counts.len() == 0 {
        assert(counts.push(count)[0] == count);
        assert(counts.push(count).skip(1) =~= Seq::<u64>::empty());
    } else {
        assert(counts.push(count)[0] == counts[0]);
        assert(counts.push(count).skip(1) =~= counts.skip(1).push(count));
        lemma_added_all_snoc(e.added(counts[0]), counts.skip(1), count);
    }
}

/// Law: the published rate is stable between updates. No sequence of `add`
/// calls, however long, moves anything but the accumulator.
pub proof fn lemma_rate_stable_under_adds(e: RateEstimator, counts: Seq<u64>)
    ensures
        added_all(e, counts).current_rate == e.current_rate,
        added_all(e, counts).last_update_at_ms == e.last_update_at_ms,
        added_all(e, counts).interval_ms == e.interval_ms,
    decreases counts.len(),
{
    if counts.len() > 0 {
        lemma_rate_stable_under_adds(e.added(counts[0]), counts.skip(1));
    }
}

/// As long as the total stays within `u64`, a sequence of `add` calls
/// accumulates the exact sum of its counts.
pub proof fn lemma_added_all_exact(e: RateEstimator, counts: Seq<u64>)
    requires
        e.accumulated + sum_of(counts) <= u64::MAX,
    ensures
        added_all(e, counts).accumulated == e.accumulated + sum_of(counts),
    decreases counts.len(),
{
    if counts.len() > 0 {
        lemma_sum_of_nonneg(counts.skip(1));
        lemma_added_all_exact(e.added(counts[0]), counts.skip(1));
    }
}

/// Law: any run of `add(c1), ..., add(cn)` followed by one `update(now_ms)`
/// whose elapsed time reaches the interval publishes exactly the rate
/// `(c1 + ... + cn)` events per `now_ms - last_update` milliseconds, resets
/// the accumulator, and remembers `now_ms`.
pub proof fn lemma_adds_then_update(e: RateEstimator, counts: Seq<u64>, now_ms: u64)
    requires
        e.wf(),
        e.accumulated == 0,
        sum_of(counts) <= u64::MAX,
        now_ms - e.last_update_at_ms >= e.interval_ms,
    ensures
        added_all(e, counts).updated_at(now_ms) == (RateEstimator {
            accumulated: 0,
            current_rate: Rate {
                events: sum_of(counts) as u64,
                window_ms: (now_ms - e.last_update_at_ms) as u64,
            },
            last_update_at_ms: now_ms,
            interval_ms: e.interval_ms,
        }),
{
    lemma_sum_of_nonneg(counts);
    lemma_added_all_exact(e, counts);
    lemma_rate_stable_under_adds(e, counts);
}

/// Law: a second `update` whose elapsed time since the first is below the
/// configured interval is a no-op; in particular the rate is unchanged.
pub proof fn lemma_second_update_within_interval(e: RateEstimator, t1_ms: u64, t2_ms: u64)
    requires
        e.wf(),
        t2_ms - e.updated_at(t1_ms).last_update_at_ms < e.updated_at(t1_ms).interval_ms,
    ensures
        e.updated_at(t1_ms).updated_at(t2_ms) == e.updated_at(t1_ms),
        e.updated_at(t1_ms).updated_at(t2_ms).current_rate == e.updated_at(t1_ms).current_rate,
{
}

/// Law: a timestamp at or before the last recomputation — a clock standing
/// still or running backward — leaves the estimator untouched; the rate
/// neither goes negative nor blows up.
pub proof fn lemma_backward_clock_is_noop(e: RateEstimator, now_ms: u64)
    requires
        now_ms <= e.last_update_at_ms,
    ensures
        e.updated_at(now_ms) == e,
{
}

/// Law: `update` preserves well-formedness, whatever the timestamp: the
/// published window stays positive, so the rate stays a finite,
/// non-negative number of events per second.
pub proof fn lemma_update_preserves_wf(e: RateEstimator, now_ms: u64)
    requires
        e.wf(),
    ensures
        e.updated_at(now_ms).wf(),
{
}

} // verus!

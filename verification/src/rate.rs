use vstd::prelude::*;

verus! {

/// An events-per-second figure, kept exact as the rational number
/// `events` per `window_ms` milliseconds, i.e. `events * 1000 / window_ms`
/// events per second.
///
/// Keeping the numerator and denominator avoids any rounding: callers that
/// want a decimal figure divide at the edge.
#[derive(Clone, Copy, Debug, PartialEq, Eq, Structural)]
pub struct Rate {
    /// How many events were counted over the window.
    pub events: u64,
    /// The length of the window, in milliseconds.
    pub window_ms: u64,
}

impl Rate {
    /// A rate is meaningful only over a window of positive length: the
    /// figure it denotes is then finite, and non-negative by type.
    pub open spec fn wf(self) -> bool {
        self.window_ms > 0
    }

    /// The value this rate denotes, in thousandths of an event per second
    /// (so `50.0/s` is `50_000`), rounded toward zero.
    pub open spec fn spec_per_second_milli(self) -> int
        recommends
            self.wf(),
    {
        (self.events as int) * 1_000_000 / (self.window_ms as int)
    }

    /// The zero rate: no events over a (nominal) one-millisecond window.
    pub fn zero() -> (r: Rate)
        ensures
            r == (Rate { events: 0, window_ms: 1 }),
            r.wf(),
    {
        Rate { events: 0, window_ms: 1 }
    }

    /// This rate in thousandths of an event per second, rounded toward zero.
    pub fn per_second_milli(&self) -> (r: u128)
        requires
            self.wf(),
        ensures
            r == self.spec_per_second_milli(),
    {
        (self.events as u128) * 1_000_000 / (self.window_ms as u128)
    }
}

} // verus!

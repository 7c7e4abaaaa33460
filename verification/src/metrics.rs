use vstd::prelude::*;

use crate::estimator::added_all;
use crate::estimator::RateEstimator;
use crate::rate::Rate;

verus! {

/// Milliseconds between rate recomputations: a tenth of a second.
pub const METRIC_INTERVAL_MS: u64 = 100;

/// Milliseconds that must pass between two diagnostic snapshots, when
/// diagnostics are enabled.
pub const DEBUG_LOG_INTERVAL_MS: u64 = 500;

/// The two rates measured in one direction: datagrams per second and
/// octets per second. An immutable snapshot value.
#[derive(Clone, Copy, Debug, PartialEq, Eq, Structural)]
pub struct MetricsInDirection {
    pub datagrams_per_second: Rate,
    pub octets_per_second: Rate,
}

/// Both directions' snapshots together. An immutable snapshot value.
#[derive(Clone, Copy, Debug, PartialEq, Eq, Structural)]
pub struct CombinedMetrics {
    pub outgoing: MetricsInDirection,
    pub incoming: MetricsInDirection,
}

/// The cadence of diagnostic snapshots: when one was last due, and how many
/// milliseconds must pass before the next.
#[derive(Clone, Copy, Debug, PartialEq, Eq, Structural)]
pub struct DebugCadence {
    pub last_snapshot_at_ms: u64,
    pub interval_ms: u64,
}

/// The per-element octet counts of a batch of datagrams: each datagram
/// contributes its length.
pub open spec fn octet_counts(datagrams: Seq<Seq<u8>>) -> Seq<u64> {
    datagrams.map_values(|d: Seq<u8>| d.len() as u64)
}

/// Directional network throughput bookkeeping: four independent rate
/// estimators — inbound and outbound, datagrams and octets — refreshed
/// together on a caller-driven cadence.
///
/// Timestamps are supplied by the caller in milliseconds and never read
/// from a system clock, so the whole component is deterministic.
#[derive(Clone, Copy, Debug)]
pub struct NetworkMetrics {
    pub in_datagrams: RateEstimator,
    pub in_octets: RateEstimator,
    pub out_datagrams: RateEstimator,
    pub out_octets: RateEstimator,
    /// `Some` when diagnostic snapshots are wanted on a cadence.
    pub debug: Option<DebugCadence>,
}

impl NetworkMetrics {
    /// Well-formed: all four estimators are, and the diagnostic cadence,
    /// if any, has a positive interval.
    pub open spec fn wf(self) -> bool {
        &&& self.in_datagrams.wf()
        &&& self.in_octets.wf()
        &&& self.out_datagrams.wf()
        &&& self.out_octets.wf()
        &&& match self.debug {
            Some(d) => d.interval_ms > 0,
            None => true,
        }
    }

    /// The snapshot built from the four current rates.
    pub open spec fn snapshot(self) -> CombinedMetrics {
        CombinedMetrics {
            outgoing: MetricsInDirection {
                datagrams_per_second: self.out_datagrams.current_rate,
                octets_per_second: self.out_octets.current_rate,
            },
            incoming: MetricsInDirection {
                datagrams_per_second: self.in_datagrams.current_rate,
                octets_per_second: self.in_octets.current_rate,
            },
        }
    }

    /// Whether a diagnostic snapshot falls due at `now_ms`: diagnostics are
    /// on and strictly more than the cadence interval has elapsed.
    pub open spec fn debug_due(self, now_ms: u64) -> bool {
        match self.debug {
            Some(d) => now_ms > d.last_snapshot_at_ms
                && now_ms - d.last_snapshot_at_ms > d.interval_ms,
            None => false,
        }
    }

    /// The cadence state after `update_metrics(now_ms)`: advanced to
    /// `now_ms` exactly when a snapshot fell due.
    pub open spec fn debug_stepped(self, now_ms: u64) -> Option<DebugCadence> {
        match self.debug {
            Some(d) => if self.debug_due(now_ms) {
                Some(DebugCadence { last_snapshot_at_ms: now_ms, interval_ms: d.interval_ms })
            } else {
                Some(d)
            },
            None => None,
        }
    }

    /// The whole aggregator state after `update_metrics(now_ms)`: all four
    /// estimators see the same timestamp.
    pub open spec fn stepped(self, now_ms: u64) -> NetworkMetrics {
        NetworkMetrics {
            in_datagrams: self.in_datagrams.updated_at(now_ms),
            in_octets: self.in_octets.updated_at(now_ms),
            out_datagrams: self.out_datagrams.updated_at(now_ms),
            out_octets: self.out_octets.updated_at(now_ms),
            debug: self.debug_stepped(now_ms),
        }
    }

    /// Constructs the aggregator with all four estimators starting at
    /// `now_ms` on a tenth-of-a-second smoothing window, and no diagnostic
    /// snapshots. Every rate starts at exactly zero.
    pub fn new(now_ms: u64) -> (r: NetworkMetrics)
        ensures
            r == (NetworkMetrics {
                in_datagrams: RateEstimator::fresh(now_ms, METRIC_INTERVAL_MS),
                in_octets: RateEstimator::fresh(now_ms, METRIC_INTERVAL_MS),
                out_datagrams: RateEstimator::fresh(now_ms, METRIC_INTERVAL_MS),
                out_octets: RateEstimator::fresh(now_ms, METRIC_INTERVAL_MS),
                debug: None::<DebugCadence>,
            }),
            r.wf(),
    {
        NetworkMetrics {
            in_datagrams: RateEstimator::new(now_ms, METRIC_INTERVAL_MS),
            in_octets: RateEstimator::new(now_ms, METRIC_INTERVAL_MS),
            out_datagrams: RateEstimator::new(now_ms, METRIC_INTERVAL_MS),
            out_octets: RateEstimator::new(now_ms, METRIC_INTERVAL_MS),
            debug: None,
        }
    }

    /// Like [`NetworkMetrics::new`], but with diagnostic snapshots wanted
    /// once per half second, counted from `now_ms`.
    pub fn with_debug_logging(now_ms: u64) -> (r: NetworkMetrics)
        ensures
            r == (NetworkMetrics {
                in_datagrams: RateEstimator::fresh(now_ms, METRIC_INTERVAL_MS),
                in_octets: RateEstimator::fresh(now_ms, METRIC_INTERVAL_MS),
                out_datagrams: RateEstimator::fresh(now_ms, METRIC_INTERVAL_MS),
                out_octets: RateEstimator::fresh(now_ms, METRIC_INTERVAL_MS),
                debug: Some(DebugCadence {
                    last_snapshot_at_ms: now_ms,
                    interval_ms: DEBUG_LOG_INTERVAL_MS,
                }),
            }),
            r.wf(),
    {
        NetworkMetrics {
            in_datagrams: RateEstimator::new(now_ms, METRIC_INTERVAL_MS),
            in_octets: RateEstimator::new(now_ms, METRIC_INTERVAL_MS),
            out_datagrams: RateEstimator::new(now_ms, METRIC_INTERVAL_MS),
            out_octets: RateEstimator::new(now_ms, METRIC_INTERVAL_MS),
            debug: Some(DebugCadence {
                last_snapshot_at_ms: now_ms,
                interval_ms: DEBUG_LOG_INTERVAL_MS,
            }),
        }
    }

    /// Records a batch of sent datagrams: each datagram's length is added
    /// to the outgoing-octets estimator, and the number of datagrams in the
    /// batch is added once to the outgoing-datagrams estimator. An empty
    /// batch contributes only a zero count.
    pub fn sent_datagrams(&mut self, datagrams: &Vec<Vec<u8>>)
        ensures
            final(self).out_octets
                == added_all(old(self).out_octets, octet_counts(datagrams.deep_view())),
            final(self).out_datagrams
                == old(self).out_datagrams.added(datagrams.len() as u64),
            final(self).in_datagrams == old(self).in_datagrams,
            final(self).in_octets == old(self).in_octets,
            final(self).debug == old(self).debug,
            old(self).wf() ==> final(self).wf(),
    {
        let ghost all: Seq<Seq<u8>> = datagrams.deep_view();
        let mut i: usize = 0;
        while i < datagrams.len()
            invariant
                i <= datagrams.len(),
                all == datagrams.deep_view(),
                all.len() == datagrams.len(),
                self.out_octets == added_all(old(self).out_octets, octet_counts(all.take(i as int))),
                self.out_datagrams == old(self).out_datagrams,
                self.in_datagrams == old(self).in_datagrams,
                self.in_octets == old(self).in_octets,
                self.debug == old(self).debug,
            decreases datagrams.len() - i,
        {
            proof {
                assert(all[i as int] == datagrams[i as int]@);
                assert(octet_counts(all.take(i + 1))
                    =~= octet_counts(all.take(i as int)).push(all[i as int].len() as u64));
                crate::estimator::lemma_added_all_snoc(
                    old(self).out_octets,
                    octet_counts(all.take(i as int)),
                    all[i as int].len() as u64,
                );
            }
            self.out_octets.add(datagrams[i].len() as u64);
            i = i + 1;
        }
        proof {
            assert(all.take(datagrams.len() as int) =~= all);
            crate::estimator::lemma_rate_stable_under_adds(old(self).out_octets, octet_counts(all));
        }
        self.out_datagrams.add(datagrams.len() as u64);
    }

    /// Records one received datagram: its length goes to the
    /// incoming-octets estimator, and exactly one to the
    /// incoming-datagrams estimator.
    pub fn received_datagram(&mut self, datagram: &[u8])
        ensures
            final(self).in_octets == old(self).in_octets.added(datagram@.len() as u64),
            final(self).in_datagrams == old(self).in_datagrams.added(1),
            final(self).out_datagrams == old(self).out_datagrams,
            final(self).out_octets == old(self).out_octets,
            final(self).debug == old(self).debug,
            old(self).wf() ==> final(self).wf(),
    {
        self.in_octets.add(datagram.len() as u64);
        self.in_datagrams.add(1);
    }

    /// Forwards `now_ms` to all four estimators' `update` — they all see
    /// the same timestamp — and, when a diagnostic snapshot falls due,
    /// advances the cadence and returns the fresh snapshot for the caller
    /// to report. Reporting is the caller's business: this function itself
    /// performs no output and cannot fail.
    pub fn update_metrics(&mut self, now_ms: u64) -> (due: Option<CombinedMetrics>)
        ensures
            *final(self) == old(self).stepped(now_ms),
            due == (if old(self).debug_due(now_ms) {
                Some(old(self).stepped(now_ms).snapshot())
            } else {
                None::<CombinedMetrics>
            }),
            old(self).wf() ==> final(self).wf(),
    {
        self.in_datagrams.update(now_ms);
        self.in_octets.update(now_ms);
        self.out_datagrams.update(now_ms);
        self.out_octets.update(now_ms);

        let cadence = self.debug;
        match cadence {
            Some(d) => {
                if now_ms > d.last_snapshot_at_ms && now_ms - d.last_snapshot_at_ms > d.interval_ms {
                    self.debug = Some(DebugCadence {
                        last_snapshot_at_ms: now_ms,
                        interval_ms: d.interval_ms,
                    });
                    Some(self.metrics())
                } else {
                    None
                }
            }
            None => None,
        }
    }

    /// Builds the combined snapshot from the four current rates. A pure
    /// read: the aggregator is not changed.
    pub fn metrics(&self) -> (r: CombinedMetrics)
        ensures
            r == self.snapshot(),
    {
        CombinedMetrics {
            outgoing: MetricsInDirection {
                datagrams_per_second: self.out_datagrams.rate(),
                octets_per_second: self.out_octets.rate(),
            },
            incoming: MetricsInDirection {
                datagrams_per_second: self.in_datagrams.rate(),
                octets_per_second: self.in_octets.rate(),
            },
        }
    }

    /// The current incoming datagrams-per-second rate.
    pub fn in_datagrams_per_second(&self) -> (r: Rate)
        ensures
            r == self.in_datagrams.current_rate,
    {
        self.in_datagrams.rate()
    }

    /// The current incoming octets-per-second rate.
    pub fn in_octets_per_second(&self) -> (r: Rate)
        ensures
            r == self.in_octets.current_rate,
    {
        self.in_octets.rate()
    }

    /// The current outgoing datagrams-per-second rate.
    pub fn out_datagrams_per_second(&self) -> (r: Rate)
        ensures
            r == self.out_datagrams.current_rate,
    {
        self.out_datagrams.rate()
    }

    /// The current outgoing octets-per-second rate.
    pub fn out_octets_per_second(&self) -> (r: Rate)
        ensures
            r == self.out_octets.current_rate,
    {
        self.out_octets.rate()
    }
}

/// Law: reading the snapshot neither mutates nor depends on anything but
/// the aggregator's state — any two reads of the same, unmutated
/// aggregator return identical values.
pub proof fn lemma_snapshot_repeatable(
    m: NetworkMetrics,
    first: CombinedMetrics,
    second: CombinedMetrics,
)
    requires
        first == m.snapshot(),
        second == m.snapshot(),
    ensures
        first == second,
{
}

} // verus!

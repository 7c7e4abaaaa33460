//! Directional network throughput measurement: datagrams and octets per
//! second, inbound and outbound, from caller-supplied monotonic timestamps.
//!
//! The building block is [`RateEstimator`], which turns irregular `add`
//! calls plus periodic `update` calls into a stepwise-smoothed rate.
//! [`NetworkMetrics`] aggregates four such estimators and hands out
//! immutable [`CombinedMetrics`] snapshots.
//!
//! Rates are kept exact: a [`Rate`] is the rational number
//! `events / window`, never a rounded figure.

pub mod estimator;
pub mod metrics;
pub mod rate;

pub use estimator::RateEstimator;
pub use metrics::CombinedMetrics;
pub use metrics::DebugCadence;
pub use metrics::MetricsInDirection;
pub use metrics::NetworkMetrics;
pub use rate::Rate;

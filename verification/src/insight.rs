//! Typed model of the insights API responses: aggregate statistics for a
//! named workflow or job, and the individual run items behind them.
//!
//! Fractional statistics are held as fixed-point integers so that the
//! formatting and color logic is exact: a success rate of `1.0` is
//! `RATE_ONE` hundred-thousandths, and throughput and standard deviation
//! are in thousandths.

use vstd::prelude::*;

verus! {

/// A success rate of exactly one (100%), in hundred-thousandths.
pub const RATE_ONE: u32 = 100000;

/// A batch of aggregate summaries, one per workflow or job.
#[derive(Debug, Clone)]
pub struct Insights {
    pub items: Vec<InsightItem>,
}

/// Aggregate statistics for one named workflow or job over a time window.
#[derive(Debug, Clone)]
pub struct InsightItem {
    pub name: String,
    pub metrics: Metrics,
    /// Start of the aggregation window, in seconds since the Unix epoch.
    pub window_start: i64,
    /// End of the aggregation window, in seconds since the Unix epoch.
    pub window_end: i64,
}

/// The numeric statistics of one summary.
#[derive(Debug, Clone)]
pub struct Metrics {
    /// Fraction of runs that succeeded, in hundred-thousandths of one:
    /// `RATE_ONE` stands for a rate of 1.0.
    pub success_rate: u32,
    pub total_runs: usize,
    pub failed_runs: usize,
    pub successful_runs: usize,
    /// Runs per day, in thousandths.
    pub throughput: u64,
    pub duration_metrics: DurationMetrics,
    pub total_credits_used: usize,
}

/// Duration statistics of one summary, in seconds.
#[derive(Debug, Clone)]
pub struct DurationMetrics {
    pub min: usize,
    pub max: usize,
    pub median: usize,
    pub mean: usize,
    pub p95: usize,
    /// Standard deviation in thousandths of a second.
    pub standard_deviation: u64,
}

/// The run history of one workflow or job, oldest first.
#[derive(Debug, Clone)]
pub struct Items {
    pub items: Vec<Item>,
}

/// One executed run.
#[derive(Debug, Clone)]
pub struct Item {
    pub id: Option<String>,
    /// Duration in seconds.
    pub duration: usize,
    /// The outcome reported by the provider; `"success"` and `"failed"` are
    /// the recognized values, anything else (or nothing) is unknown.
    pub status: Option<String>,
    pub credits_used: usize,
}

} // verus!

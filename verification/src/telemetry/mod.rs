//! Telemetry and metrics collection for the Databricks ADBC driver.

use vstd::prelude::*;
use std::time::{Duration, Instant};

verus! {

/// A point in time, as the clock of the machine gives it.
#[verifier::external_type_specification]
#[verifier::external_body]
pub struct ExInstant(Instant);

/// `Instant::now`: the present instant. Nothing is said of it: it differs
/// from call to call.
#[verifier::external_body]
fn now() -> (instant: Instant) {
    Instant::now()
}

/// `Instant::elapsed`: the time since the instant. Nothing is said of it: it
/// grows from call to call.
#[verifier::external_body]
fn since(instant: &Instant) -> (elapsed: Duration) {
    instant.elapsed()
}

/// Configuration for telemetry collection.
///
/// Telemetry is disabled by default and requires explicit opt-in.
/// When enabled, the driver collects anonymous usage metrics such as
/// query execution times and error counts. No query content or
/// personally identifiable information is collected.
#[derive(Clone, Copy, Debug, PartialEq, Eq, Structural)]
pub struct TelemetryConfig {
    /// Whether telemetry collection is enabled (default: false).
    pub enabled: bool,
}

impl Default for TelemetryConfig {
    fn default() -> (config: Self)
        ensures
            !config.enabled,
    {
        TelemetryConfig { enabled: false }
    }
}

/// Collects and reports driver telemetry data.
#[derive(Debug)]
pub struct TelemetryCollector {
    config: TelemetryConfig,
}

impl TelemetryCollector {
    /// The configuration of this collector.
    pub closed spec fn settings(&self) -> TelemetryConfig {
        self.config
    }

    /// Creates a new telemetry collector with the given configuration.
    pub fn new(config: TelemetryConfig) -> (collector: Self)
        ensures
            collector.settings() == config,
    {
        TelemetryCollector { config }
    }

    /// Returns whether telemetry is enabled.
    pub fn is_enabled(&self) -> (enabled: bool)
        ensures
            enabled == self.settings().enabled,
    {
        self.config.enabled
    }

    /// Records a query execution metric. Nothing is reported yet, whether
    /// telemetry is enabled or not.
    pub fn record_query_execution(&self, duration: Duration, rows_fetched: u64) {
    }

    /// Records an error occurrence. Nothing is reported yet, whether
    /// telemetry is enabled or not.
    pub fn record_error(&self, error_type: &str) {
    }
}

impl Default for TelemetryCollector {
    fn default() -> (collector: Self)
        ensures
            !collector.settings().enabled,
    {
        TelemetryCollector::new(TelemetryConfig::default())
    }
}

/// A timer for measuring operation durations.
#[derive(Debug)]
pub struct Timer {
    start: Instant,
}

impl Timer {
    /// Starts a new timer.
    pub fn start() -> (timer: Self) {
        Timer { start: now() }
    }

    /// Returns the elapsed duration since the timer was started.
    pub fn elapsed(&self) -> (elapsed: Duration) {
        since(&self.start)
    }
}

} // verus!

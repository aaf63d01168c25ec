use databricks_adbc::telemetry::{TelemetryCollector, TelemetryConfig, Timer};
use std::time::Duration;

#[test]
fn test_telemetry_config_default_disabled() {
    let config = TelemetryConfig::default();
    assert!(!config.enabled);
}

#[test]
fn test_telemetry_collector_disabled() {
    let collector = TelemetryCollector::new(TelemetryConfig { enabled: false });
    assert!(!collector.is_enabled());
}

#[test]
fn telemetry_collector_enabled() {
    let collector = TelemetryCollector::new(TelemetryConfig { enabled: true });
    assert!(collector.is_enabled());
    collector.record_query_execution(Duration::from_millis(5), 10);
    collector.record_error("Transient");
    assert!(collector.is_enabled());
    assert!(!TelemetryCollector::default().is_enabled());
}

#[test]
fn timer_never_runs_backwards() {
    let timer = Timer::start();
    let first = timer.elapsed();
    let second = timer.elapsed();
    assert!(second >= first);
}

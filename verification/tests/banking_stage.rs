use std::time::Duration;
use timing_exporter::banking_stage::{
    ExportNotice, TimingExporter, TimingExporterConfig, TimingExporterMetrics, TransactionTiming,
};

#[test]
fn test_timing_exporter_config_default() {
    let config = TimingExporterConfig::default();
    assert_eq!(config.export_url, "http://localhost:8080/ingest");
    assert_eq!(config.request_timeout, Duration::from_millis(1000));
    assert!(!config.enable_batching);
    assert_eq!(config.max_batch_size, 50);
}

#[test]
fn test_timing_exporter_creation() {
    let config = TimingExporterConfig::default();
    let built = TimingExporter::client_builder(&config).build();
    let exporter =
        TimingExporter::new(config, built).expect("Should create TimingExporter successfully");

    assert!(exporter.is_healthy());
    assert_eq!(exporter.export_url(), "http://localhost:8080/ingest");

    let metrics = exporter.metrics();
    assert_eq!(metrics.total_exported, 0);
    assert_eq!(metrics.export_failures, 0);
    assert_eq!(metrics.dropped_records, 0);
}

fn exporter() -> TimingExporter {
    let config = TimingExporterConfig::default();
    let built = TimingExporter::client_builder(&config).build();
    TimingExporter::new(config, built).expect("client builds")
}

#[test]
fn metrics_default_is_zero() {
    let m = TimingExporterMetrics::default();
    assert_eq!(m.total_exported, 0);
    assert_eq!(m.export_failures, 0);
    assert_eq!(m.dropped_records, 0);
}

#[test]
fn custom_url_and_timeout_are_kept() {
    let config = TimingExporterConfig {
        export_url: "http://example.invalid:9000/timings".to_string(),
        request_timeout: Duration::from_secs(3),
        enable_batching: true,
        max_batch_size: 7,
    };
    let built = TimingExporter::client_builder(&config).build();
    let exporter = TimingExporter::new(config, built).expect("client builds");
    assert_eq!(exporter.export_url(), "http://example.invalid:9000/timings");
    assert!(exporter.is_healthy());
}

#[test]
fn delivered_records_are_counted() {
    let mut e = exporter();
    assert_eq!(e.record_export(true), ExportNotice::Quiet);
    assert_eq!(e.record_export(true), ExportNotice::Quiet);
    let m = e.metrics();
    assert_eq!(m.total_exported, 2);
    assert_eq!(m.export_failures, 0);
    assert_eq!(m.dropped_records, 0);
    assert!(e.is_healthy());
}

#[test]
fn only_first_five_failures_are_logged() {
    let mut e = exporter();
    let notices: Vec<ExportNotice> = (0..7).map(|_| e.record_export(false)).collect();
    assert_eq!(
        notices,
        vec![
            ExportNotice::Warn(1),
            ExportNotice::Warn(2),
            ExportNotice::Warn(3),
            ExportNotice::Warn(4),
            ExportNotice::Suppress,
            ExportNotice::Quiet,
            ExportNotice::Quiet,
        ]
    );
    let m = e.metrics();
    assert_eq!(m.export_failures, 7);
    assert_eq!(m.dropped_records, 7);
    assert_eq!(m.total_exported, 0);
}

#[test]
fn failures_count_before_any_export() {
    let mut e = exporter();
    e.record_export(false);
    // One failed attempt and no success: the error rate is total.
    assert!(!e.is_healthy());
    e.record_export(false);
    assert!(!e.is_healthy());
    // One delivery after two failures: two of three attempts failed.
    e.record_export(true);
    assert!(!e.is_healthy());
}

#[test]
fn client_builder_sets_request_timeout_only() {
    let config = TimingExporterConfig::default();
    let shown = format!("{:?}", TimingExporter::client_builder(&config));
    assert!(!shown.contains("connect_timeout"));
    assert!(TimingExporter::client_builder(&config).build().is_ok());
}

#[test]
fn health_threshold_is_one_tenth() {
    let mut e = exporter();
    for _ in 0..9 {
        e.record_export(true);
    }
    e.record_export(false);
    // 1 failure in 10 attempts is not below one tenth.
    assert!(!e.is_healthy());
    e.record_export(true);
    // 1 failure in 11 attempts is.
    assert!(e.is_healthy());
    // A further failure makes it 2 in 12.
    e.record_export(false);
    assert!(!e.is_healthy());
}

#[test]
fn timing_record_fields() {
    let timing = TransactionTiming {
        signature: "test_signature".to_string(),
        slot: 12345,
        poh_tick: 67890,
        accounts_read: vec!["account1".to_string(), "account2".to_string()],
        accounts_written: vec!["account3".to_string()],
        execution_success: true,
    };
    let copy = timing.clone();
    assert_eq!(copy.signature, "test_signature");
    assert_eq!(copy.slot, 12345);
    assert_eq!(copy.poh_tick, 67890);
    assert_eq!(copy.accounts_read.len(), 2);
    assert!(copy.execution_success);
}

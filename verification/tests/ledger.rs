use timing_exporter::ledger::{export_client_builder, export_counts, ExportConfig, ExportCounts, ExportStats};

#[test]
fn test_export_config_defaults() {
    let config = ExportConfig::default();
    assert_eq!(config.batch_size, 14_000);
    assert_eq!(config.batch_timeout_secs, 5);
    assert_eq!(config.channel_capacity, 4_000_000);
    assert_eq!(config.retry_base_ms, 100);
    assert_eq!(config.retry_max_ms, 30_000);
    assert_eq!(config.enable_compression, true);
}

#[test]
fn hand_off_counts() {
    assert_eq!(export_counts(true), ExportCounts { sent: 1, errors: 0 });
    assert_eq!(export_counts(false), ExportCounts { sent: 1, errors: 1 });
}

#[test]
fn export_client_builds_with_and_without_gzip() {
    let mut config = ExportConfig::default();
    assert!(export_client_builder(&config).build().is_ok());
    config.enable_compression = false;
    assert!(export_client_builder(&config).build().is_ok());
}

#[test]
fn export_client_builder_sets_connect_timeout() {
    let shown = format!("{:?}", export_client_builder(&ExportConfig::default()));
    assert!(shown.contains("connect_timeout: 10s"), "{}", shown);
}

#[test]
fn stats_snapshot_compares_by_fields() {
    let a = ExportStats { total_sent: 3, total_exported: 2, total_errors: 1, current_buffer_size: 0 };
    let b = a;
    assert_eq!(a, b);
    assert_ne!(a, ExportStats { total_errors: 2, ..b });
}

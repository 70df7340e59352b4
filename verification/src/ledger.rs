//! Channel-based timing exporter of the ledger: the records, the export
//! configuration, a snapshot of the export statistics, and the pieces of the
//! HTTP set-up that depend on the configuration.

use crate::http_client::{
    builder_connect_timeout, builder_gzip, builder_settings, builder_timeout, client_builder,
    duration_from_secs, secs_duration, ClientSettings,
};
use vstd::prelude::*;

verus! {

/// Transaction timing data for historical MEV analysis.
#[derive(Debug, Clone)]
pub struct TransactionTiming {
    pub signature: String,
    pub slot: u64,
    /// 100µs resolution from the historical block.
    pub poh_tick: u64,
    /// Position within the slot's entries.
    pub entry_index: u64,
    /// Position within the entry.
    pub tx_index: u64,
    pub accounts_read: Vec<String>,
    pub accounts_written: Vec<String>,
    /// Vote transactions are flagged separately.
    pub is_vote: bool,
}

/// Configuration of the export system.
#[derive(Debug, Clone, Copy)]
pub struct ExportConfig {
    /// Number of transactions per batch.
    pub batch_size: usize,
    /// Longest wait, in seconds, before a partial batch is sent.
    pub batch_timeout_secs: u64,
    /// Channel buffer size.
    pub channel_capacity: usize,
    /// First retry interval in milliseconds.
    pub retry_base_ms: u64,
    /// Largest retry interval in milliseconds.
    pub retry_max_ms: u64,
    /// Whether gzip compression is enabled.
    pub enable_compression: bool,
}

/// The defaults: ten slots' worth of transactions per batch, a flush at least
/// every five seconds, a buffer of about 1GB, retries from 100ms up to 30s,
/// and gzip enabled.
pub open spec fn is_default_export_config(c: ExportConfig) -> bool {
    &&& c.batch_size == 14_000
    &&& c.batch_timeout_secs == 5
    &&& c.channel_capacity == 4_000_000
    &&& c.retry_base_ms == 100
    &&& c.retry_max_ms == 30_000
    &&& c.enable_compression
}

impl Default for ExportConfig {
    fn default() -> (c: Self)
        ensures
            is_default_export_config(c),
            c.batch_size == 14_000,
            c.batch_timeout_secs == 5,
            c.channel_capacity == 4_000_000,
            c.retry_base_ms == 100,
            c.retry_max_ms == 30_000,
            c.enable_compression,
    {
        ExportConfig {
            batch_size: 14_000,
            batch_timeout_secs: 5,
            channel_capacity: 4_000_000,
            retry_base_ms: 100,
            retry_max_ms: 30_000,
            enable_compression: true,
        }
    }
}

/// A snapshot of the export statistics.
#[derive(Debug, Clone, Copy, PartialEq, Eq, Structural)]
pub struct ExportStats {
    /// Records handed to the exporter.
    pub total_sent: u64,
    /// Records delivered to the endpoint.
    pub total_exported: u64,
    /// Records that failed to reach the worker or the endpoint.
    pub total_errors: u64,
    /// Records waiting in the worker's buffer.
    pub current_buffer_size: u64,
}

/// What one hand-off of a record to the worker adds to the statistics.
#[derive(Debug, Clone, Copy, PartialEq, Eq, Structural)]
pub struct ExportCounts {
    /// Amount to add to `total_sent`.
    pub sent: u64,
    /// Amount to add to `total_errors`.
    pub errors: u64,
}

/// Every record handed to the exporter counts as sent; one that cannot reach
/// the worker (its channel is closed) also counts as an error.
pub fn export_counts(handed_off: bool) -> (c: ExportCounts)
    ensures
        c.sent == 1,
        c.errors == if handed_off { 0u64 } else { 1u64 },
{
    ExportCounts { sent: 1, errors: if handed_off { 0 } else { 1 } }
}

/// The settings of the export client: a 30 second request timeout, a 10
/// second connect timeout, and gzip on. Gzip is on whether compression is
/// enabled or not: enabling it switches gzip on explicitly, and reqwest
/// starts with it on.
pub open spec fn export_client_settings() -> ClientSettings {
    ClientSettings {
        timeout: Some(duration_from_secs(30)),
        connect_timeout: Some(duration_from_secs(10)),
        gzip: true,
    }
}

/// The builder of the export client, with the settings above. Building the
/// client (which starts a thread and a runtime) is the caller's part.
pub fn export_client_builder(config: &ExportConfig) -> (b: reqwest::blocking::ClientBuilder)
    ensures
        builder_settings(b) == export_client_settings(),
        builder_settings(b).timeout == Some(duration_from_secs(30)),
        builder_settings(b).connect_timeout == Some(duration_from_secs(10)),
        builder_settings(b).gzip,
{
    let mut builder = builder_connect_timeout(
        builder_timeout(client_builder(), secs_duration(30)),
        secs_duration(10),
    );
    if config.enable_compression {
        builder = builder_gzip(builder, true);
    }
    builder
}

/// The export client's settings are the same for every configuration: a
/// 30 second request timeout, a 10 second connect timeout, and gzip on.
pub proof fn lemma_export_client_settings()
    ensures
        export_client_settings().timeout == Some(duration_from_secs(30)),
        export_client_settings().connect_timeout == Some(duration_from_secs(10)),
        export_client_settings().gzip,
{
}

} // verus!

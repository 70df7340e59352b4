//! Synchronous transaction timing exporter used by the banking stage: one
//! HTTP POST per record, with counters that decide whether the exporter is
//! healthy and how loudly failures are reported.

use crate::http_client::{
    builder_settings, builder_timeout, duration_from_millis, fresh_settings, millis_duration,
    ClientSettings,
};
use std::time::Duration;
use vstd::prelude::*;

verus! {

/// Transaction timing data for MEV analysis.
#[derive(Debug, Clone)]
pub struct TransactionTiming {
    /// Transaction signature (base58 encoded).
    pub signature: String,
    /// Slot number when the transaction was processed.
    pub slot: u64,
    /// PoH tick height at commitment time.
    pub poh_tick: u64,
    /// Account pubkeys that were read.
    pub accounts_read: Vec<String>,
    /// Account pubkeys that were written.
    pub accounts_written: Vec<String>,
    /// Whether the transaction executed successfully.
    pub execution_success: bool,
}

/// Configuration of the exporter.
#[derive(Debug, Clone)]
pub struct TimingExporterConfig {
    /// URL of the analysis service endpoint.
    pub export_url: String,
    /// Timeout of each HTTP request to the analysis service.
    pub request_timeout: Duration,
    /// Whether batching of timing data is enabled.
    pub enable_batching: bool,
    /// Maximum batch size when batching is enabled.
    pub max_batch_size: usize,
}

/// The default endpoint, timeout (in milliseconds) and batch size.
pub open spec fn is_default_config(c: TimingExporterConfig) -> bool {
    &&& c.export_url@ == "http://localhost:8080/ingest"@
    &&& c.request_timeout == duration_from_millis(1000)
    &&& !c.enable_batching
    &&& c.max_batch_size == 50
}

impl Default for TimingExporterConfig {
    fn default() -> (c: Self)
        ensures
            is_default_config(c),
            c.export_url@ == "http://localhost:8080/ingest"@,
            c.request_timeout == duration_from_millis(1000),
            !c.enable_batching,
            c.max_batch_size == 50,
    {
        TimingExporterConfig {
            export_url: "http://localhost:8080/ingest".to_owned(),
            request_timeout: millis_duration(1000),
            enable_batching: false,
            max_batch_size: 50,
        }
    }
}

/// Counters of the exporter's outcomes.
#[derive(Debug, Clone, Copy)]
pub struct TimingExporterMetrics {
    /// Number of timing records exported.
    pub total_exported: u64,
    /// Number of failed export attempts.
    pub export_failures: u64,
    /// Number of records dropped because their export failed.
    pub dropped_records: u64,
}

/// All counters at zero.
pub open spec fn zero_metrics() -> TimingExporterMetrics {
    TimingExporterMetrics { total_exported: 0, export_failures: 0, dropped_records: 0 }
}

impl Default for TimingExporterMetrics {
    fn default() -> (m: Self)
        ensures
            m == zero_metrics(),
            m.total_exported == 0 && m.export_failures == 0 && m.dropped_records == 0,
    {
        TimingExporterMetrics { total_exported: 0, export_failures: 0, dropped_records: 0 }
    }
}

/// A counter after one more event. Counters wrap around at `u64::MAX`, as
/// `fetch_add(1)` does on an atomic counter.
pub open spec fn bumped(count: u64) -> u64 {
    if count == u64::MAX { 0 } else { (count + 1) as u64 }
}

/// The counters after one export attempt that was `delivered` or not.
pub open spec fn metrics_after(m: TimingExporterMetrics, delivered: bool) -> TimingExporterMetrics {
    if delivered {
        TimingExporterMetrics { total_exported: bumped(m.total_exported), ..m }
    } else {
        TimingExporterMetrics {
            export_failures: bumped(m.export_failures),
            dropped_records: bumped(m.dropped_records),
            ..m
        }
    }
}

/// How a finished export attempt is to be reported in the log.
#[derive(Debug, Clone, Copy, PartialEq, Eq, Structural)]
pub enum ExportNotice {
    /// Nothing is logged.
    Quiet,
    /// A warning that names the failure count.
    Warn(u64),
    /// One error saying that further failures go unreported.
    Suppress,
}

/// The notice for an attempt, given the counters after it: the first four
/// failures are warned about, the fifth announces the suppression, and the
/// rest (and every success) stay quiet.
pub open spec fn notice_for(after: TimingExporterMetrics, delivered: bool) -> ExportNotice {
    if delivered {
        ExportNotice::Quiet
    } else if after.export_failures < 5 {
        ExportNotice::Warn(after.export_failures)
    } else if after.export_failures == 5 {
        ExportNotice::Suppress
    } else {
        ExportNotice::Quiet
    }
}

/// The exporter is healthy while its error rate is low: no failure at all,
/// or failures making up less than a tenth of all attempts.
pub open spec fn healthy(m: TimingExporterMetrics) -> bool {
    m.export_failures == 0 || 10 * m.export_failures < m.total_exported + m.export_failures
}

/// The settings of the exporter's HTTP client: the configured request
/// timeout; no connect timeout and gzip on, as reqwest starts out.
pub open spec fn exporter_client_settings(config: TimingExporterConfig) -> ClientSettings {
    ClientSettings { timeout: Some(config.request_timeout), ..fresh_settings() }
}

/// Why an exporter could not be created.
#[derive(Debug)]
pub enum TimingExporterError {
    /// The HTTP client could not be built.
    HttpClient(reqwest::Error),
}

/// Synchronous exporter of transaction timing data.
///
/// The POST of a record is the caller's I/O; `record_export` then accounts
/// for its outcome.
#[derive(Debug)]
pub struct TimingExporter {
    client: reqwest::blocking::Client,
    config: TimingExporterConfig,
    metrics: TimingExporterMetrics,
}

impl TimingExporter {
    /// Every failed attempt drops its record, so the two counters move together.
    #[verifier::type_invariant]
    spec fn counters_agree(self) -> bool {
        self.metrics.export_failures == self.metrics.dropped_records
    }

    /// The configuration the exporter was created with.
    pub closed spec fn settings(&self) -> TimingExporterConfig {
        self.config
    }

    /// The current counters.
    pub closed spec fn counters(&self) -> TimingExporterMetrics {
        self.metrics
    }

    /// The HTTP client the records are posted with.
    pub closed spec fn http_client(&self) -> reqwest::blocking::Client {
        self.client
    }

    /// The builder of the exporter's HTTP client: the configured request
    /// timeout, every other setting at its default. Building the client
    /// (which starts a thread and a runtime) is the caller's part.
    pub fn client_builder(config: &TimingExporterConfig) -> (b: reqwest::blocking::ClientBuilder)
        ensures
            builder_settings(b) == exporter_client_settings(*config),
            builder_settings(b).timeout == Some(config.request_timeout),
            builder_settings(b).connect_timeout.is_none(),
            builder_settings(b).gzip,
    {
        builder_timeout(crate::http_client::client_builder(), config.request_timeout)
    }

    /// Creates an exporter over the outcome of building the client from
    /// `client_builder(&config)`: the exporter with zeroed counters when the
    /// client was built, the build error otherwise.
    pub fn new(
        config: TimingExporterConfig,
        built: Result<reqwest::blocking::Client, reqwest::Error>,
    ) -> (r: Result<Self, TimingExporterError>)
        ensures
            match built {
                Ok(client) => r matches Ok(e) && e.http_client() == client && e.settings() == config
                    && e.counters() == zero_metrics(),
                Err(err) => r == Err::<Self, TimingExporterError>(TimingExporterError::HttpClient(err)),
            },
    {
        match built {
            Ok(client) => Ok(TimingExporter { client, config, metrics: TimingExporterMetrics::default() }),
            Err(err) => Err(TimingExporterError::HttpClient(err)),
        }
    }

    /// Accounts for one export attempt: a delivered record counts as
    /// exported, a failed one as a failure and a dropped record. Returns how
    /// the attempt is to be logged.
    pub fn record_export(&mut self, delivered: bool) -> (notice: ExportNotice)
        ensures
            final(self).counters() == metrics_after(old(self).counters(), delivered),
            final(self).settings() == old(self).settings(),
            final(self).http_client() == old(self).http_client(),
            notice == notice_for(final(self).counters(), delivered),
    {
        proof {
            use_type_invariant(&*self);
        }
        let m = self.metrics;
        if delivered {
            self.metrics = TimingExporterMetrics { total_exported: m.total_exported.wrapping_add(1), ..m };
            ExportNotice::Quiet
        } else {
            self.metrics = TimingExporterMetrics {
                export_failures: m.export_failures.wrapping_add(1),
                dropped_records: m.dropped_records.wrapping_add(1),
                ..m
            };
            let failure_count = self.metrics.export_failures;
            if failure_count < 5 {
                ExportNotice::Warn(failure_count)
            } else if failure_count == 5 {
                ExportNotice::Suppress
            } else {
                ExportNotice::Quiet
            }
        }
    }

    /// The current counters; failures and dropped records always agree.
    pub fn metrics(&self) -> (m: &TimingExporterMetrics)
        ensures
            *m == self.counters(),
            m.export_failures == m.dropped_records,
    {
        proof {
            use_type_invariant(self);
        }
        &self.metrics
    }

    /// The export endpoint URL.
    pub fn export_url(&self) -> (url: &str)
        ensures
            url@ == self.settings().export_url@,
    {
        self.config.export_url.as_str()
    }

    /// The HTTP client that records are to be posted with.
    pub fn client(&self) -> (c: &reqwest::blocking::Client)
        ensures
            *c == self.http_client(),
    {
        &self.client
    }

    /// Whether the exporter is healthy: true while no attempt has failed,
    /// else true exactly when failures are under a tenth of all attempts.
    pub fn is_healthy(&self) -> (ok: bool)
        ensures
            ok == healthy(self.counters()),
            ok <==> (self.counters().export_failures == 0 || 10 * self.counters().export_failures
                < self.counters().total_exported + self.counters().export_failures),
    {
        let failures = self.metrics.export_failures;
        let total = self.metrics.total_exported;
        if failures == 0 {
            true
        } else {
            (failures as u128) * 10 < (total as u128) + (failures as u128)
        }
    }
}

/// Failed exports and dropped records move together: if they agree before
/// an attempt, they agree after it.
pub proof fn lemma_failures_match_dropped(m: TimingExporterMetrics, delivered: bool)
    requires
        m.export_failures == m.dropped_records,
    ensures
        metrics_after(m, delivered).export_failures == metrics_after(m, delivered).dropped_records,
{
}

/// Each attempt is counted exactly once, as an export or as a failure
/// (while the counters do not wrap around).
pub proof fn lemma_attempt_counted_once(m: TimingExporterMetrics, delivered: bool)
    requires
        m.total_exported < u64::MAX,
        m.export_failures < u64::MAX,
    ensures
        metrics_after(m, delivered).total_exported + metrics_after(m, delivered).export_failures
            == m.total_exported + m.export_failures + 1,
        delivered ==> metrics_after(m, delivered).export_failures == m.export_failures,
        !delivered ==> metrics_after(m, delivered).total_exported == m.total_exported,
{
}

/// A fresh exporter, with all counters at zero, is healthy.
pub proof fn lemma_fresh_exporter_healthy()
    ensures
        healthy(zero_metrics()),
{
}

/// A delivered record never turns a healthy exporter unhealthy.
pub proof fn lemma_delivery_keeps_health(m: TimingExporterMetrics)
    requires
        healthy(m),
        m.total_exported < u64::MAX,
    ensures
        healthy(metrics_after(m, true)),
{
}

/// A failed export never turns an unhealthy exporter healthy.
pub proof fn lemma_failure_keeps_unhealthy(m: TimingExporterMetrics)
    requires
        !healthy(m),
        m.export_failures < u64::MAX,
    ensures
        !healthy(metrics_after(m, false)),
{
}

/// Only the first five failures are logged: a failure produces a log line
/// exactly when fewer than five failures were counted before it (while the
/// failure counter does not wrap around), and a delivery never does.
pub proof fn lemma_failure_logging_bounded(m: TimingExporterMetrics, delivered: bool)
    requires
        m.export_failures < u64::MAX,
    ensures
        (notice_for(metrics_after(m, delivered), delivered) != ExportNotice::Quiet) <==> (!delivered
            && m.export_failures < 5),
        notice_for(metrics_after(m, delivered), delivered) == ExportNotice::Suppress <==> (!delivered
            && m.export_failures == 4),
{
}

/// The counters after a run of export attempts, given in order by whether
/// each was delivered.
pub open spec fn metrics_after_run(m: TimingExporterMetrics, outcomes: Seq<bool>) -> TimingExporterMetrics
    decreases outcomes.len(),
{
    if outcomes.len() == 0 {
        m
    } else {
        metrics_after(metrics_after_run(m, outcomes.drop_last()), outcomes.last())
    }
}

/// How many attempts of a run were delivered.
pub open spec fn delivered_count(outcomes: Seq<bool>) -> nat
    decreases outcomes.len(),
{
    if outcomes.len() == 0 {
        0
    } else {
        delivered_count(outcomes.drop_last()) + if outcomes.last() { 1nat } else { 0nat }
    }
}

/// A run of `record_export` calls on one exporter: `states[i + 1]` is the
/// exporter after the call with `outcomes[i]`, as that method's contract
/// states it.
pub open spec fn is_export_run(states: Seq<TimingExporter>, outcomes: Seq<bool>) -> bool {
    &&& states.len() == outcomes.len() + 1
    &&& forall|i: int|
        #![trigger states[i + 1]]
        0 <= i < outcomes.len() ==> {
            &&& states[i + 1].settings() == states[i].settings()
            &&& states[i + 1].http_client() == states[i].http_client()
            &&& states[i + 1].counters() == metrics_after(states[i].counters(), outcomes[i])
        }
}

/// From zero counters, `n` attempts leave exported plus failures equal to
/// `n`, exported equal to the number delivered, and dropped records equal
/// to failures (for fewer than `u64::MAX` attempts, so that nothing wraps).
pub proof fn lemma_run_counts(outcomes: Seq<bool>)
    requires
        outcomes.len() < u64::MAX,
    ensures
        metrics_after_run(zero_metrics(), outcomes).total_exported + metrics_after_run(
            zero_metrics(),
            outcomes,
        ).export_failures == outcomes.len(),
        metrics_after_run(zero_metrics(), outcomes).total_exported == delivered_count(outcomes),
        metrics_after_run(zero_metrics(), outcomes).dropped_records == metrics_after_run(
            zero_metrics(),
            outcomes,
        ).export_failures,
    decreases outcomes.len(),
{
    if outcomes.len() > 0 {
        lemma_run_counts(outcomes.drop_last());
    }
}

/// Over any run of `record_export` calls, the configuration (and with it
/// the export URL) and the client stay as they were, and the counters are
/// those of the whole run.
pub proof fn lemma_export_run(states: Seq<TimingExporter>, outcomes: Seq<bool>)
    requires
        is_export_run(states, outcomes),
    ensures
        states.last().settings() == states[0].settings(),
        states.last().settings().export_url@ == states[0].settings().export_url@,
        states.last().http_client() == states[0].http_client(),
        states.last().counters() == metrics_after_run(states[0].counters(), outcomes),
    decreases outcomes.len(),
{
    if outcomes.len() > 0 {
        let n = outcomes.len() - 1;
        let shorter = states.drop_last();
        assert(outcomes.drop_last().len() == n);
        assert forall|i: int| 0 <= i < n implies {
            &&& #[trigger] shorter[i + 1].settings() == shorter[i].settings()
            &&& shorter[i + 1].http_client() == shorter[i].http_client()
            &&& shorter[i + 1].counters() == metrics_after(shorter[i].counters(), outcomes.drop_last()[i])
        } by {
            assert(states[i + 1] == shorter[i + 1]);
        }
        lemma_export_run(shorter, outcomes.drop_last());
        assert(states[n + 1] == states.last());
        assert(states[n] == shorter.last());
    }
}

/// The health rule over the counters: an exporter without failures is
/// healthy; one with failures is healthy exactly when fewer than one attempt
/// in ten failed, so a failure share of a tenth or more is unhealthy however
/// many records were exported.
pub proof fn lemma_health_rule(m: TimingExporterMetrics)
    ensures
        m.export_failures == 0 ==> healthy(m),
        m.export_failures > 0 ==> (healthy(m) <==> 10 * m.export_failures < m.total_exported
            + m.export_failures),
        m.export_failures > 0 && 10 * m.export_failures >= m.total_exported + m.export_failures
            ==> !healthy(m),
{
}

/// The exporter's client settings carry the configured request timeout, for
/// every configuration, and two configurations with different timeouts give
/// different settings.
pub proof fn lemma_client_uses_request_timeout(a: TimingExporterConfig, b: TimingExporterConfig)
    ensures
        exporter_client_settings(a).timeout == Some(a.request_timeout),
        a.request_timeout != b.request_timeout ==> exporter_client_settings(a)
            != exporter_client_settings(b),
{
    if a.request_timeout != b.request_timeout {
        assert(exporter_client_settings(a).timeout != exporter_client_settings(b).timeout);
    }
}

} // verus!

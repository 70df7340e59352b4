# timing_exporter

Export of transaction timing records to an HTTP analysis service, in two
flavours, with the decision logic verified by Verus.

- `src/banking_stage.rs`: the synchronous exporter. Its configuration and
  defaults, the outcome counters, how each export attempt changes them and is
  logged, and the health rule (fewer than one failure in ten attempts).
- `src/ledger.rs`: the records, configuration and statistics of the batching
  exporter, how a hand-off to the worker is counted, and the export client's
  settings.
- `src/export_worker.rs`: the batching worker as a state machine (buffering,
  flush on size or timeout, exponential backoff, final flush), with its laws.
- `src/http_client.rs`: the trusted wrappers around `reqwest`'s client
  builder and `std::time::Duration`. Building the client (a thread and a
  runtime) is left to `app/`.
- `app/`: the I/O around the library: JSON encoding, HTTP requests, the
  channel, the worker thread and its clock, atomic statistics and logging.

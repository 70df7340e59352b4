//! Transaction timing export: configuration, counters and the batching
//! worker's decision logic, with the HTTP client construction behind a small
//! set of trusted wrappers.

pub mod banking_stage;
pub mod export_worker;
pub mod http_client;
pub mod ledger;

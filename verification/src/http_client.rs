//! Trusted boundary to `reqwest`'s blocking client builder and to
//! `std::time::Duration` constructors. Building the client itself starts a
//! thread and a runtime, and is left to the caller.

use std::time::Duration;
use vstd::prelude::*;

verus! {

/// `reqwest::blocking::Client`: carried through opaquely.
#[verifier::external_type_specification]
#[verifier::external_body]
pub struct ExClient(reqwest::blocking::Client);

/// `reqwest::blocking::ClientBuilder`: carried through opaquely.
#[verifier::external_type_specification]
#[verifier::external_body]
pub struct ExClientBuilder(reqwest::blocking::ClientBuilder);

/// `reqwest::Error`: carried through opaquely.
#[verifier::external_type_specification]
#[verifier::external_body]
pub struct ExReqwestError(reqwest::Error);

/// Three fields of a client builder's configuration: the request timeout
/// (`None`: no timeout), the connect timeout (`None`: no connect timeout),
/// and whether gzip responses are accepted and decompressed.
#[derive(Debug, Clone, Copy, PartialEq, Eq)]
pub struct ClientSettings {
    pub timeout: Option<Duration>,
    pub connect_timeout: Option<Duration>,
    pub gzip: bool,
}

/// What a client builder holds in the three fields above.
pub uninterp spec fn builder_settings(builder: reqwest::blocking::ClientBuilder) -> ClientSettings;

/// The fields of a fresh builder: reqwest's blocking builder starts with a
/// 30 second request timeout and no connect timeout, and, with the `gzip`
/// feature this crate enables, with gzip on.
pub open spec fn fresh_settings() -> ClientSettings {
    ClientSettings { timeout: Some(duration_from_secs(30)), connect_timeout: None, gzip: true }
}

/// Calls `reqwest::blocking::Client::builder`, which returns
/// `ClientBuilder::new()`: its timeout is `Timeout::default()` (30 seconds),
/// its connect timeout `None`, and its gzip switch `Accepts::default()`
/// (on, with the `gzip` feature).
#[verifier::external_body]
pub(crate) fn client_builder() -> (b: reqwest::blocking::ClientBuilder)
    ensures
        builder_settings(b) == fresh_settings(),
{
    reqwest::blocking::Client::builder()
}

/// Calls `reqwest::blocking::ClientBuilder::timeout` with `Some(timeout)`,
/// which sets the builder's request timeout and no other of the fields.
#[verifier::external_body]
pub(crate) fn builder_timeout(
    builder: reqwest::blocking::ClientBuilder,
    timeout: Duration,
) -> (b: reqwest::blocking::ClientBuilder)
    ensures
        builder_settings(b) == (ClientSettings { timeout: Some(timeout), ..builder_settings(builder) }),
{
    builder.timeout(timeout)
}

/// Calls `reqwest::blocking::ClientBuilder::connect_timeout` with
/// `Some(timeout)`, which sets the connect timeout and no other of the
/// fields.
#[verifier::external_body]
pub(crate) fn builder_connect_timeout(
    builder: reqwest::blocking::ClientBuilder,
    timeout: Duration,
) -> (b: reqwest::blocking::ClientBuilder)
    ensures
        builder_settings(b) == (ClientSettings {
            connect_timeout: Some(timeout),
            ..builder_settings(builder)
        }),
{
    builder.connect_timeout(timeout)
}

/// Calls `reqwest::blocking::ClientBuilder::gzip`, which sets the gzip
/// switch and no other of the fields.
#[verifier::external_body]
pub(crate) fn builder_gzip(
    builder: reqwest::blocking::ClientBuilder,
    enable: bool,
) -> (b: reqwest::blocking::ClientBuilder)
    ensures
        builder_settings(b) == (ClientSettings { gzip: enable, ..builder_settings(builder) }),
{
    builder.gzip(enable)
}

/// What `Duration::from_millis(millis)` returns: a value of the arguments
/// alone, the span of `millis` milliseconds.
pub uninterp spec fn duration_from_millis(millis: u64) -> Duration;

/// Calls `std::time::Duration::from_millis`, which the standard library
/// documents as a pure constructor; its result is named
/// `duration_from_millis(millis)`.
#[verifier::external_body]
pub(crate) fn millis_duration(millis: u64) -> (d: Duration)
    ensures
        d == duration_from_millis(millis),
{
    Duration::from_millis(millis)
}

/// What `Duration::from_secs(secs)` returns: a value of the argument alone,
/// the span of `secs` seconds.
pub uninterp spec fn duration_from_secs(secs: u64) -> Duration;

/// Calls `std::time::Duration::from_secs`, a pure constructor; its result is
/// named `duration_from_secs(secs)`.
#[verifier::external_body]
pub(crate) fn secs_duration(secs: u64) -> (d: Duration)
    ensures
        d == duration_from_secs(secs),
{
    Duration::from_secs(secs)
}

/// `Duration` is `Copy`, so its `clone` hands back an equal value.
pub assume_specification[ <Duration as Clone>::clone ](d: &Duration) -> (r: Duration)
    ensures
        r == *d,
;

} // verus!

//! Failures turned into what a user may read, and into what telemetry gets.
//!
//! The user sees one of a few fixed sentences. The detail of a failure goes
//! to the telemetry record and nowhere else.

use crate::clock::{decision_instant, render, rendered, unix_time};
use crate::models::{ClientErrorLog, ClientErrorLogView};
use crate::throttle::{after_decision, due, ErrorThrottle};
use vstd::prelude::*;
use vstd::string::*;

verus! {

pub const INVALID_RESPONSE: &'static str =
    "Received invalid response from server. Please try again.";

pub const TIMED_OUT: &'static str = "Connection timed out. Please try again.";

pub const NO_CONNECTION: &'static str =
    "Could not connect to server. Please check your internet connection.";

pub const NETWORK_FAILURE: &'static str = "Network error occurred. Please try again.";

pub const STORAGE_FAILURE: &'static str =
    "Could not access local storage. Please check your permissions.";

/// Error type of the telemetry record for a response that did not decode.
pub const DECODE_ERROR_TYPE: &'static str = "json_decode_network";

/// Error type of the telemetry record for a local-storage failure.
pub const STORAGE_ERROR_TYPE: &'static str = "storage_error";

pub const DECODE_PREFIX: &'static str = "JSON decode failed: ";

pub const STORAGE_PREFIX: &'static str = "Storage error: ";

/// The kinds of failure that the core tells apart.
#[derive(Clone, Copy, Debug, PartialEq, Eq, Structural)]
pub enum ErrorCategory {
    /// The response could not be decoded.
    Decode,
    /// The request timed out.
    Timeout,
    /// No connection could be made.
    Connect,
    /// The body of the request or response was malformed.
    Body,
    /// The local store could not be accessed.
    Storage,
    /// Anything else.
    Unknown,
}

/// The sentence shown for each kind of failure.
pub open spec fn user_message(category: ErrorCategory) -> Seq<char> {
    match category {
        ErrorCategory::Decode => INVALID_RESPONSE@,
        ErrorCategory::Timeout => TIMED_OUT@,
        ErrorCategory::Connect => NO_CONNECTION@,
        ErrorCategory::Body => INVALID_RESPONSE@,
        ErrorCategory::Storage => STORAGE_FAILURE@,
        ErrorCategory::Unknown => NETWORK_FAILURE@,
    }
}

/// The sentence shown for a kind of failure.
pub fn classify(category: ErrorCategory) -> (message: String)
    ensures
        message@ == user_message(category),
{
    match category {
        ErrorCategory::Decode => INVALID_RESPONSE.to_owned(),
        ErrorCategory::Timeout => TIMED_OUT.to_owned(),
        ErrorCategory::Connect => NO_CONNECTION.to_owned(),
        ErrorCategory::Body => INVALID_RESPONSE.to_owned(),
        ErrorCategory::Storage => STORAGE_FAILURE.to_owned(),
        ErrorCategory::Unknown => NETWORK_FAILURE.to_owned(),
    }
}

/// What the core reads of a failed request to the remote service: the four
/// tests that the transport offers on its error, and the error's text.
pub struct NetworkError {
    pub is_decode: bool,
    pub is_timeout: bool,
    pub is_connect: bool,
    pub is_body: bool,
    pub detail: String,
}

pub struct NetworkErrorView {
    pub is_decode: bool,
    pub is_timeout: bool,
    pub is_connect: bool,
    pub is_body: bool,
    pub detail: Seq<char>,
}

impl View for NetworkError {
    type V = NetworkErrorView;

    open spec fn view(&self) -> NetworkErrorView {
        NetworkErrorView {
            is_decode: self.is_decode,
            is_timeout: self.is_timeout,
            is_connect: self.is_connect,
            is_body: self.is_body,
            detail: self.detail@,
        }
    }
}

impl NetworkErrorView {
    /// The kind of a network failure. The tests are not exclusive; the first
    /// that holds decides, in the order decode, timeout, connect, body.
    pub open spec fn category(self) -> ErrorCategory {
        if self.is_decode {
            ErrorCategory::Decode
        } else if self.is_timeout {
            ErrorCategory::Timeout
        } else if self.is_connect {
            ErrorCategory::Connect
        } else if self.is_body {
            ErrorCategory::Body
        } else {
            ErrorCategory::Unknown
        }
    }

    /// What telemetry is told of a network failure: only a response that
    /// did not decode is reported, with the error's text.
    pub open spec fn report(self) -> Option<ErrorReportView> {
        if self.is_decode {
            Some(
                ErrorReportView {
                    error_type: DECODE_ERROR_TYPE@,
                    error_message: DECODE_PREFIX@ + self.detail,
                },
            )
        } else {
            None
        }
    }
}

/// What the core reads of a failure of the local store: its text.
pub struct StorageError {
    pub detail: String,
}

/// A failure as telemetry is to hear of it.
pub struct ErrorReport {
    pub error_type: String,
    pub error_message: String,
}

pub struct ErrorReportView {
    pub error_type: Seq<char>,
    pub error_message: Seq<char>,
}

impl View for ErrorReport {
    type V = ErrorReportView;

    open spec fn view(&self) -> ErrorReportView {
        ErrorReportView { error_type: self.error_type@, error_message: self.error_message@ }
    }
}

/// The kind of a network failure.
pub fn network_error_category(error: &NetworkError) -> (category: ErrorCategory)
    ensures
        category == error@.category(),
{
    if error.is_decode {
        ErrorCategory::Decode
    } else if error.is_timeout {
        ErrorCategory::Timeout
    } else if error.is_connect {
        ErrorCategory::Connect
    } else if error.is_body {
        ErrorCategory::Body
    } else {
        ErrorCategory::Unknown
    }
}

/// The sentence shown for a network failure. The error's own text is no
/// part of it.
pub fn network_error_to_string(error: NetworkError) -> (message: String)
    ensures
        message@ == user_message(error@.category()),
{
    classify(network_error_category(&error))
}

/// What telemetry is told of a network failure, if anything.
pub fn network_error_report(error: &NetworkError) -> (report: Option<ErrorReport>)
    ensures
        match report {
            Some(r) => error@.report() == Some(r@),
            None => error@.report() is None,
        },
{
    if error.is_decode {
        let mut error_message = DECODE_PREFIX.to_owned();
        error_message.append(error.detail.as_str());
        Some(ErrorReport { error_type: DECODE_ERROR_TYPE.to_owned(), error_message })
    } else {
        None
    }
}

/// The sentence shown for a failure of the local store, whatever the
/// failure was.
pub fn storage_error_to_string(error: StorageError) -> (message: String)
    ensures
        message@ == user_message(ErrorCategory::Storage),
{
    classify(ErrorCategory::Storage)
}

/// What telemetry is told of a failure of the local store.
pub fn storage_error_report(error: &StorageError) -> (report: ErrorReport)
    ensures
        report@ == (ErrorReportView {
            error_type: STORAGE_ERROR_TYPE@,
            error_message: STORAGE_PREFIX@ + error.detail@,
        }),
{
    let mut error_message = STORAGE_PREFIX.to_owned();
    error_message.append(error.detail.as_str());
    ErrorReport { error_type: STORAGE_ERROR_TYPE.to_owned(), error_message }
}

/// The telemetry record for a failure.
pub open spec fn client_error_log(
    timestamp: Seq<char>,
    error_type: Seq<char>,
    error_message: Seq<char>,
    app_version: Seq<char>,
    os: Seq<char>,
) -> ClientErrorLogView {
    ClientErrorLogView { timestamp, error_type, error_message, app_version, os }
}

/// The view of a record that may or may not have been built.
pub open spec fn record_view(record: Option<ClientErrorLog>) -> Option<ClientErrorLogView> {
    match record {
        Some(log) => Some(log@),
        None => None,
    }
}

/// The record that goes out at time `now`: the record of the failure where
/// one is due, and none otherwise.
pub open spec fn client_error_outcome(
    last_sent: Map<Seq<char>, u64>,
    error_type: Seq<char>,
    error_message: Seq<char>,
    app_version: Seq<char>,
    os: Seq<char>,
    now: u64,
    timestamp: Seq<char>,
) -> Option<ClientErrorLogView> {
    if due(last_sent, error_type, now) {
        Some(client_error_log(timestamp, error_type, error_message, app_version, os))
    } else {
        None
    }
}

/// Decides at time `now` whether a record of the failure goes out, and
/// builds it where it does.
pub fn client_error_at(
    throttle: &mut ErrorThrottle,
    error_type: &str,
    error_message: &str,
    app_version: &str,
    os: &str,
    now: u64,
    timestamp: String,
) -> (record: Option<ClientErrorLog>)
    ensures
        final(throttle)@ == after_decision(old(throttle)@, error_type@, now),
        record_view(record) == client_error_outcome(
            old(throttle)@,
            error_type@,
            error_message@,
            app_version@,
            os@,
            now,
            timestamp@,
        ),
{
    if throttle.should_send_at(error_type, now) {
        Some(
            ClientErrorLog {
                timestamp,
                error_type: error_type.to_owned(),
                error_message: error_message.to_owned(),
                app_version: app_version.to_owned(),
                os: os.to_owned(),
            },
        )
    } else {
        None
    }
}

/// The timestamp of the Unix epoch, which stamps a record whose instant has
/// no rendering.
pub const EPOCH_TIMESTAMP: &'static str = "1970-01-01T00:00:00+00:00";

/// The timestamp of an instant: its RFC 3339 text, and that of the epoch
/// for an instant without one.
pub open spec fn timestamp_of(seconds: u64, nanos: u32) -> Seq<char> {
    match rendered(seconds, nanos) {
        Some(text) => text,
        None => EPOCH_TIMESTAMP@,
    }
}

/// Settles on a timestamp, given the rendering of the instant.
pub fn timestamp_or_epoch(text: Option<String>) -> (timestamp: String)
    ensures
        timestamp@ == match text {
            Some(t) => t@,
            None => EPOCH_TIMESTAMP@,
        },
{
    match text {
        Some(t) => t,
        None => EPOCH_TIMESTAMP.to_owned(),
    }
}

/// The timestamp of an instant after the Unix epoch.
pub fn timestamp(seconds: u64, nanos: u32) -> (timestamp: String)
    ensures
        timestamp@ == timestamp_of(seconds, nanos),
{
    timestamp_or_epoch(render(seconds, nanos))
}

/// Decides by the system clock whether a record of the failure goes out,
/// and builds it, stamped with the instant of the decision, where it does.
///
/// The result is that of [`client_error_at`] at the instant the clock gave,
/// whatever that instant is; a clock that stands before the Unix epoch is
/// read as the epoch. So the first record of a type always goes out, and
/// where none goes out nothing changes. Handing the record to the sink is
/// the caller's part, and the caller neither waits for the sink nor hears of
/// its failures.
pub fn send_client_error(
    throttle: &mut ErrorThrottle,
    error_type: &str,
    error_message: &str,
    app_version: &str,
    os: &str,
) -> (record: Option<ClientErrorLog>)
    ensures
        exists|seconds: u64, nanos: u32|
            final(throttle)@ == after_decision(old(throttle)@, error_type@, seconds)
                && record_view(record) == client_error_outcome(
                old(throttle)@,
                error_type@,
                error_message@,
                app_version@,
                os@,
                seconds,
                #[trigger] timestamp_of(seconds, nanos),
            ),
        !old(throttle)@.contains_key(error_type@) ==> record is Some,
        record is None ==> final(throttle)@ == old(throttle)@,
{
    let (seconds, nanos) = decision_instant(unix_time());
    client_error_at(
        throttle,
        error_type,
        error_message,
        app_version,
        os,
        seconds,
        timestamp(seconds, nanos),
    )
}

} // verus!

//! The log line on the latency of a request.

use vstd::prelude::*;

use crate::requests::request_tracker::{RequestIntervalKind, RequestTracker};
use crate::text::{self, append_decimal};

verus! {

/// The error that a request ended with.
#[derive(Clone, Copy, Debug, PartialEq, Eq, Structural)]
pub struct ErrorOutcome {
    /// The status that stands for the error in telemetry.
    pub status_code: i32,
    pub code: i32,
}

/// The status of a request that ended without an error.
pub const STATUS_OK: i32 = 200;

/// What a latency log line says besides the timings.
#[derive(Debug)]
pub struct LatencyContext {
    pub address: String,
    pub transport_protocol: String,
    pub database_name: Option<String>,
    pub collection_name: Option<String>,
    pub operation_name: String,
    pub error: Option<ErrorOutcome>,
}

/// The text of a name that may be missing.
pub open spec fn name_or_nothing(name: Option<String>) -> Seq<char> {
    match name {
        Some(text) => text@,
        None => ""@,
    }
}

/// The status code and error code of a request that ended with `error`, or
/// without one.
pub open spec fn codes(error: Option<ErrorOutcome>) -> (i32, i32) {
    match error {
        Some(outcome) => (outcome.status_code, outcome.code),
        None => (STATUS_OK, 0i32),
    }
}

/// `line` with a labelled number at its end.
pub open spec fn with_count(line: Seq<char>, label: Seq<char>, n: int) -> Seq<char> {
    line + label + text::decimal(n)
}

/// `line` with a labelled text at its end.
pub open spec fn with_label(line: Seq<char>, label: Seq<char>, value: Seq<char>) -> Seq<char> {
    line + label + value
}

/// The part of the line that holds the timings `m`.
pub open spec fn timings(m: Seq<i64>) -> Seq<char> {
    let line = "Latency for Mongo Request with interval timings (ns): "@;
    let line = with_count(line, "ReadRequest="@, m[0] as int);
    let line = with_count(line, ", HandleMessage="@, m[1] as int);
    let line = with_count(line, " FormatRequest="@, m[2] as int);
    let line = with_count(line, ", HandleRequest="@, m[3] as int);
    let line = with_count(line, ", ProcessRequest="@, m[4] as int);
    let line = with_count(line, ", PostgresBeginTransaction="@, m[5] as int);
    let line = with_count(line, ", PostgresSetStatementTimeout="@, m[6] as int);
    let line = with_count(line, ", PostgresCommitTransaction="@, m[7] as int);
    with_count(line, ", WriteResponse="@, m[8] as int)
}

/// The latency log line of a request with the timings `m`.
pub open spec fn latency_line(m: Seq<i64>, context: LatencyContext) -> Seq<char> {
    let line = with_label(timings(m), ", Address="@, context.address@);
    let line = with_label(line, ", TransportProtocol="@, context.transport_protocol@);
    let line = with_label(line, ", DatabaseName="@, name_or_nothing(context.database_name));
    let line = with_label(line, ", CollectionName="@, name_or_nothing(context.collection_name));
    let line = with_label(line, ", OperationName="@, context.operation_name@);
    let line = with_count(line, ", StatusCode="@, codes(context.error).0 as int);
    let line = with_count(line, ", SubStatusCode="@, 0);
    with_count(line, ", ErrorCode="@, codes(context.error).1 as int)
}

/// The status code and error code under which a request is logged.
pub fn outcome_codes(error: Option<ErrorOutcome>) -> (result: (i32, i32))
    ensures
        result == codes(error),
{
    match error {
        Some(outcome) => (outcome.status_code, outcome.code),
        None => (STATUS_OK, 0),
    }
}

/// Appends a labelled number.
fn append_count(line: &mut String, label: &str, n: i64)
    ensures
        final(line)@ == with_count(old(line)@, label@, n as int),
{
    line.append(label);
    append_decimal(line, n);
}

/// Appends a labelled text.
fn append_label(line: &mut String, label: &str, value: &str)
    ensures
        final(line)@ == with_label(old(line)@, label@, value@),
{
    line.append(label);
    line.append(value);
}

/// Appends a labelled name, which may be missing.
fn append_name(line: &mut String, label: &str, name: &Option<String>)
    ensures
        final(line)@ == with_label(old(line)@, label@, name_or_nothing(*name)),
{
    match name {
        Some(text) => append_label(line, label, text.as_str()),
        None => append_label(line, label, ""),
    }
}

/// The latency log line of a request.
pub fn verbose_latency_message(tracker: &RequestTracker, context: &LatencyContext) -> (line: String)
    ensures
        line@ == latency_line(tracker@, *context),
{
    let mut line = "Latency for Mongo Request with interval timings (ns): ".to_string();
    append_count(
        &mut line,
        "ReadRequest=",
        tracker.get_interval_elapsed_time(RequestIntervalKind::ReadRequest),
    );
    append_count(
        &mut line,
        ", HandleMessage=",
        tracker.get_interval_elapsed_time(RequestIntervalKind::HandleMessage),
    );
    append_count(
        &mut line,
        " FormatRequest=",
        tracker.get_interval_elapsed_time(RequestIntervalKind::FormatRequest),
    );
    append_count(
        &mut line,
        ", HandleRequest=",
        tracker.get_interval_elapsed_time(RequestIntervalKind::HandleRequest),
    );
    append_count(
        &mut line,
        ", ProcessRequest=",
        tracker.get_interval_elapsed_time(RequestIntervalKind::ProcessRequest),
    );
    append_count(
        &mut line,
        ", PostgresBeginTransaction=",
        tracker.get_interval_elapsed_time(RequestIntervalKind::PostgresBeginTransaction),
    );
    append_count(
        &mut line,
        ", PostgresSetStatementTimeout=",
        tracker.get_interval_elapsed_time(RequestIntervalKind::PostgresSetStatementTimeout),
    );
    append_count(
        &mut line,
        ", PostgresCommitTransaction=",
        tracker.get_interval_elapsed_time(RequestIntervalKind::PostgresCommitTransaction),
    );
    append_count(
        &mut line,
        ", WriteResponse=",
        tracker.get_interval_elapsed_time(RequestIntervalKind::WriteResponse),
    );
    append_label(&mut line, ", Address=", context.address.as_str());
    append_label(&mut line, ", TransportProtocol=", context.transport_protocol.as_str());
    append_name(&mut line, ", DatabaseName=", &context.database_name);
    append_name(&mut line, ", CollectionName=", &context.collection_name);
    append_label(&mut line, ", OperationName=", context.operation_name.as_str());
    let (status_code, error_code) = outcome_codes(context.error);
    append_count(&mut line, ", StatusCode=", status_code as i64);
    append_count(&mut line, ", SubStatusCode=", 0);
    append_count(&mut line, ", ErrorCode=", error_code as i64);
    line
}

/// A request that ended with an error is logged under the status and the code of
/// that error, and one that ended without under status 200 and code 0.
pub proof fn latency_line_shows_the_outcome(outcome: ErrorOutcome)
    ensures
        codes(Some(outcome)) == (outcome.status_code, outcome.code),
        codes(None) == (200i32, 0i32),
        STATUS_OK == 200,
{
}

/// The timings of the line: each phase under its name, in the order of the metrics.
pub proof fn latency_line_shows_every_phase(m: Seq<i64>)
    requires
        m.len() == 9,
    ensures
        timings(m) == "Latency for Mongo Request with interval timings (ns): "@ + "ReadRequest="@
            + text::decimal(m[0] as int) + ", HandleMessage="@ + text::decimal(m[1] as int)
            + " FormatRequest="@ + text::decimal(m[2] as int) + ", HandleRequest="@ + text::decimal(
            m[3] as int,
        ) + ", ProcessRequest="@ + text::decimal(m[4] as int) + ", PostgresBeginTransaction="@
            + text::decimal(m[5] as int) + ", PostgresSetStatementTimeout="@ + text::decimal(
            m[6] as int,
        ) + ", PostgresCommitTransaction="@ + text::decimal(m[7] as int) + ", WriteResponse="@
            + text::decimal(m[8] as int),
{
}

/// The line: the timings, then the client, the request and the outcome, each under
/// its name; a database or collection that the request does not name is left blank.
pub proof fn latency_line_shows_client_request_and_outcome(
    m: Seq<i64>,
    context: LatencyContext,
    database: Seq<char>,
    collection: Seq<char>,
    status: int,
    code: int,
)
    requires
        database == (match context.database_name {
            Some(name) => name@,
            None => ""@,
        }),
        collection == (match context.collection_name {
            Some(name) => name@,
            None => ""@,
        }),
        context.error is None ==> status == 200 && code == 0,
        context.error matches Some(outcome) ==> status == outcome.status_code && code
            == outcome.code,
    ensures
        latency_line(m, context) == timings(m) + ", Address="@ + context.address@
            + ", TransportProtocol="@ + context.transport_protocol@ + ", DatabaseName="@ + database
            + ", CollectionName="@ + collection + ", OperationName="@ + context.operation_name@
            + ", StatusCode="@ + text::decimal(status) + ", SubStatusCode="@ + text::decimal(0)
            + ", ErrorCode="@ + text::decimal(code),
{
}

} // verus!

//! The log envelope: `LogsData` with one `ResourceLogs`, which holds one
//! `ScopeLogs`, which holds one `LogRecord` for each record.
use crate::envelope::common::{
    build_resource, build_scope, resource_envelope, scope_envelope, text_any_value, text_message,
};
use crate::logs::{logged, noticed};
use crate::record::{LogEntry, LogEntryView, Severity};
use crate::schema::logs::{
    log_record_message, log_record_messages, logs_data_message, logs_encoding,
    resource_logs_message, LogRecordMessage, LogsDataMessage, ResourceLogsMessage,
    ScopeLogsMessage,
};
use opentelemetry_proto::tonic::logs::v1::{LogRecord, LogsData, ResourceLogs, ScopeLogs};
use vstd::prelude::*;

verus! {

/// The `LogRecord` message that stands for a record: its two times, the
/// number of its severity, and its body as text, and nothing else set.
pub open spec fn log_record_envelope(entry: LogEntryView) -> LogRecordMessage {
    LogRecordMessage {
        time_unix_nano: entry.time_unix_nano,
        observed_time_unix_nano: entry.observed_time_unix_nano,
        severity_number: entry.severity.spec_number(),
        severity_text: Seq::empty(),
        body: Some(text_message(entry.body)),
        attributes: Seq::empty(),
        dropped_attributes_count: 0,
        flags: 0,
        trace_id: Seq::empty(),
        span_id: Seq::empty(),
        event_name: Seq::empty(),
    }
}

/// The `LogRecord` messages that stand for a sequence of records, in the same order.
pub open spec fn log_record_envelopes(entries: Seq<LogEntryView>) -> Seq<LogRecordMessage> {
    Seq::new(entries.len(), |i: int| log_record_envelope(entries[i]))
}

/// The `LogsData` that carries `entries`: the resource, the scope, and the
/// records in their order.
pub open spec fn logs_envelope(entries: Seq<LogEntryView>) -> LogsDataMessage {
    LogsDataMessage {
        resource_logs: seq![
            ResourceLogsMessage {
                resource: Some(resource_envelope()),
                scope_logs: seq![
                    ScopeLogsMessage {
                        scope: Some(scope_envelope()),
                        log_records: log_record_envelopes(entries),
                        schema_url: Seq::empty(),
                    },
                ],
                schema_url: Seq::empty(),
            },
        ],
    }
}

/// The payload that carries `entries`: the encoding of their envelope.
pub open spec fn logs_payload(entries: Seq<LogEntryView>) -> Seq<u8> {
    logs_encoding(logs_envelope(entries))
}

/// The `LogRecord` messages that the envelope of `entries` carries.
pub open spec fn carried_records(entries: Seq<LogEntryView>) -> Seq<LogRecordMessage> {
    logs_envelope(entries).resource_logs[0].scope_logs[0].log_records
}

/// A record is carried with the number that the OTLP `SeverityNumber`
/// enumeration gives its severity: 9 for Info, 13 for Warn, 17 for Error and
/// 21 for Fatal.
pub proof fn lemma_severity_is_carried_exactly(entries: Seq<LogEntryView>, i: int)
    requires
        0 <= i < entries.len(),
    ensures
        carried_records(entries).len() == entries.len(),
        carried_records(entries)[i].severity_number == match entries[i].severity {
            Severity::Info => 9i32,
            Severity::Warning => 13i32,
            Severity::Error => 17i32,
            Severity::Fatal => 21i32,
        },
        carried_records(entries)[i].time_unix_nano == entries[i].time_unix_nano,
        carried_records(entries)[i].body == Some(text_message(entries[i].body)),
{
}

/// A notice is carried, and encoded, as the informational record of the same
/// event and the same time of observation is.
pub proof fn lemma_notice_is_encoded_as_info(
    entries: Seq<LogEntryView>,
    time_unix_nano: u64,
    now: u64,
    body: Seq<char>,
)
    ensures
        noticed(entries, time_unix_nano, now, body) == logged(
            entries,
            Severity::Info,
            time_unix_nano,
            now,
            body,
        ),
        logs_payload(noticed(entries, time_unix_nano, now, body)) == logs_payload(
            logged(entries, Severity::Info, time_unix_nano, now, body),
        ),
{
}

/// Builds the `LogRecord` message that stands for `entry`.
pub fn to_log_record(entry: &LogEntry) -> (record: LogRecord)
    ensures
        log_record_message(record) == log_record_envelope(entry@),
{
    let record = LogRecord {
        time_unix_nano: entry.time_unix_nano,
        observed_time_unix_nano: entry.observed_time_unix_nano,
        severity_number: entry.severity.number(),
        severity_text: String::new(),
        body: Some(text_any_value(entry.body.as_str())),
        attributes: Vec::new(),
        dropped_attributes_count: 0,
        flags: 0,
        trace_id: Vec::new(),
        span_id: Vec::new(),
        event_name: String::new(),
    };
    assert(log_record_message(record).attributes =~= Seq::empty());
    record
}

/// Builds the `LogRecord` messages that stand for `entries`, in the same order.
pub fn to_log_records(entries: &Vec<LogEntry>) -> (records: Vec<LogRecord>)
    ensures
        log_record_messages(records@) == log_record_envelopes(entries.deep_view()),
{
    let mut records: Vec<LogRecord> = Vec::new();
    let mut i: usize = 0;
    while i < entries.len()
        invariant
            i <= entries.len(),
            records@.len() == i,
            forall|j: int|
                0 <= j < i ==> log_record_message(#[trigger] records@[j]) == log_record_envelope(
                    entries@[j]@,
                ),
        decreases entries.len() - i,
    {
        records.push(to_log_record(&entries[i]));
        i += 1;
    }
    assert(log_record_messages(records@) =~= log_record_envelopes(entries.deep_view()));
    records
}

/// Builds the `LogsData` that carries `entries`.
pub fn logs_data(entries: &Vec<LogEntry>) -> (data: LogsData)
    ensures
        logs_data_message(data) == logs_envelope(entries.deep_view()),
{
    let scope_logs = ScopeLogs {
        scope: Some(build_scope()),
        log_records: to_log_records(entries),
        schema_url: String::new(),
    };
    let mut all_scope_logs: Vec<ScopeLogs> = Vec::new();
    all_scope_logs.push(scope_logs);
    let resource_logs = ResourceLogs {
        resource: Some(build_resource()),
        scope_logs: all_scope_logs,
        schema_url: String::new(),
    };
    let mut all_resource_logs: Vec<ResourceLogs> = Vec::new();
    all_resource_logs.push(resource_logs);
    let data = LogsData { resource_logs: all_resource_logs };
    assert(resource_logs_message(data.resource_logs@[0]).scope_logs
        =~= logs_envelope(entries.deep_view()).resource_logs[0].scope_logs);
    assert(logs_data_message(data).resource_logs =~= logs_envelope(
        entries.deep_view(),
    ).resource_logs);
    data
}

} // verus!

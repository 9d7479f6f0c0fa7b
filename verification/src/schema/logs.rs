//! The log messages: `LogsData` and what it is made of.
use crate::schema::common::{
    any_value_message, key_value_messages, resource_message, scope_message, AnyValueMessage,
    InstrumentationScopeMessage, KeyValueMessage, ResourceMessage,
};
use opentelemetry_proto::tonic::logs::v1::{LogRecord, LogsData, ResourceLogs, ScopeLogs};
use prost::Message;
use vstd::prelude::*;

verus! {

#[verifier::external_type_specification]
pub struct ExLogRecord(opentelemetry_proto::tonic::logs::v1::LogRecord);

#[verifier::external_type_specification]
pub struct ExScopeLogs(opentelemetry_proto::tonic::logs::v1::ScopeLogs);

#[verifier::external_type_specification]
pub struct ExResourceLogs(opentelemetry_proto::tonic::logs::v1::ResourceLogs);

#[verifier::external_type_specification]
pub struct ExLogsData(opentelemetry_proto::tonic::logs::v1::LogsData);

/// What a `LogRecord` message holds.
pub struct LogRecordMessage {
    pub time_unix_nano: u64,
    pub observed_time_unix_nano: u64,
    pub severity_number: i32,
    pub severity_text: Seq<char>,
    pub body: Option<AnyValueMessage>,
    pub attributes: Seq<KeyValueMessage>,
    pub dropped_attributes_count: u32,
    pub flags: u32,
    pub trace_id: Seq<u8>,
    pub span_id: Seq<u8>,
    pub event_name: Seq<char>,
}

/// What the `LogRecord` message `record` holds.
pub open spec fn log_record_message(record: LogRecord) -> LogRecordMessage {
    LogRecordMessage {
        time_unix_nano: record.time_unix_nano,
        observed_time_unix_nano: record.observed_time_unix_nano,
        severity_number: record.severity_number,
        severity_text: record.severity_text@,
        body: match record.body {
            Some(body) => Some(any_value_message(body)),
            None => None,
        },
        attributes: key_value_messages(record.attributes@),
        dropped_attributes_count: record.dropped_attributes_count,
        flags: record.flags,
        trace_id: record.trace_id@,
        span_id: record.span_id@,
        event_name: record.event_name@,
    }
}

/// What a sequence of `LogRecord` messages holds, item by item.
pub open spec fn log_record_messages(records: Seq<LogRecord>) -> Seq<LogRecordMessage> {
    Seq::new(records.len(), |i: int| log_record_message(records[i]))
}

/// What a `ScopeLogs` holds.
pub struct ScopeLogsMessage {
    pub scope: Option<InstrumentationScopeMessage>,
    pub log_records: Seq<LogRecordMessage>,
    pub schema_url: Seq<char>,
}

/// What the `ScopeLogs` `scope_logs` holds.
pub open spec fn scope_logs_message(scope_logs: ScopeLogs) -> ScopeLogsMessage {
    ScopeLogsMessage {
        scope: match scope_logs.scope {
            Some(scope) => Some(scope_message(scope)),
            None => None,
        },
        log_records: log_record_messages(scope_logs.log_records@),
        schema_url: scope_logs.schema_url@,
    }
}

/// What a `ResourceLogs` holds.
pub struct ResourceLogsMessage {
    pub resource: Option<ResourceMessage>,
    pub scope_logs: Seq<ScopeLogsMessage>,
    pub schema_url: Seq<char>,
}

/// What the `ResourceLogs` `resource_logs` holds.
pub open spec fn resource_logs_message(resource_logs: ResourceLogs) -> ResourceLogsMessage {
    ResourceLogsMessage {
        resource: match resource_logs.resource {
            Some(resource) => Some(resource_message(resource)),
            None => None,
        },
        scope_logs: Seq::new(
            resource_logs.scope_logs@.len(),
            |i: int| scope_logs_message(resource_logs.scope_logs@[i]),
        ),
        schema_url: resource_logs.schema_url@,
    }
}

/// What a `LogsData` holds.
pub struct LogsDataMessage {
    pub resource_logs: Seq<ResourceLogsMessage>,
}

/// What the `LogsData` `data` holds.
pub open spec fn logs_data_message(data: LogsData) -> LogsDataMessage {
    LogsDataMessage {
        resource_logs: Seq::new(
            data.resource_logs@.len(),
            |i: int| resource_logs_message(data.resource_logs@[i]),
        ),
    }
}

/// The protobuf encoding of a `LogsData` that holds `data`.
pub uninterp spec fn logs_encoding(data: LogsDataMessage) -> Seq<u8>;

/// Encodes `data` with prost's `Message::encode_to_vec`. The bytes are a
/// function of what the message holds, and nothing more is claimed of them.
#[verifier::external_body]
pub(crate) fn encode_logs(data: &LogsData) -> (bytes: Vec<u8>)
    ensures
        bytes@ == logs_encoding(logs_data_message(*data)),
{
    data.encode_to_vec()
}

} // verus!

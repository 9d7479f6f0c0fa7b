use bytes::BytesMut;
use lua_resty_protobuf::record::{LogEntry, Severity};
use lua_resty_protobuf::Logs;
use opentelemetry_proto::tonic::common::v1::any_value::Value;
use opentelemetry_proto::tonic::logs::v1::{LogRecord, LogsData, SeverityNumber};
use prost::Message;

fn decode_records(logs: Logs) -> Vec<LogRecord> {
    let mut buf = BytesMut::new();
    logs.get_serialized(&mut buf);
    let mut data = LogsData::decode(&buf[..]).unwrap();
    assert_eq!(data.resource_logs.len(), 1);
    let mut resource_logs = data.resource_logs.remove(0);
    assert_eq!(resource_logs.scope_logs.len(), 1);
    resource_logs.scope_logs.remove(0).log_records
}

fn body_of(record: &LogRecord) -> Value {
    record.body.clone().unwrap().value.unwrap()
}

#[test]
fn error_log_scenario() {
    let mut logs = Logs::new();
    logs.add_error_log(1000, "boom");
    let records = decode_records(logs);
    assert_eq!(records.len(), 1);
    assert_eq!(records[0].time_unix_nano, 1000);
    assert_eq!(records[0].severity_number, SeverityNumber::Error as i32);
    assert_eq!(records[0].severity_number, 17);
    assert_eq!(body_of(&records[0]), Value::StringValue("boom".to_string()));
    assert!(records[0].observed_time_unix_nano > 1_500_000_000_000_000_000);
}

#[test]
fn severity_numbers_are_those_of_otlp() {
    assert_eq!(Severity::Info.number(), SeverityNumber::Info as i32);
    assert_eq!(Severity::Warning.number(), SeverityNumber::Warn as i32);
    assert_eq!(Severity::Error.number(), SeverityNumber::Error as i32);
    assert_eq!(Severity::Fatal.number(), SeverityNumber::Fatal as i32);
    assert_eq!(Severity::Info.number(), 9);
    assert_eq!(Severity::Warning.number(), 13);
    assert_eq!(Severity::Error.number(), 17);
    assert_eq!(Severity::Fatal.number(), 21);
}

#[test]
fn each_add_takes_its_severity_in_order() {
    let mut logs = Logs::new();
    logs.add_info_log(1, "i");
    logs.add_notice_log(2, "n");
    logs.add_warning_log(3, "w");
    logs.add_error_log(4, "e");
    logs.add_fatal_log(5, "f");
    let records = decode_records(logs);
    let seen: Vec<(u64, i32, Value)> =
        records.iter().map(|r| (r.time_unix_nano, r.severity_number, body_of(r))).collect();
    assert_eq!(
        seen,
        vec![
            (1, 9, Value::StringValue("i".to_string())),
            (2, 9, Value::StringValue("n".to_string())),
            (3, 13, Value::StringValue("w".to_string())),
            (4, 17, Value::StringValue("e".to_string())),
            (5, 21, Value::StringValue("f".to_string())),
        ]
    );
}

#[test]
fn notice_serializes_as_info() {
    let mut noticed = Logs::new();
    noticed.add_notice_log(42, "same");
    let mut informed = Logs::new();
    informed.add_info_log(42, "same");
    let mut noticed = decode_records(noticed);
    let mut informed = decode_records(informed);
    noticed[0].observed_time_unix_nano = 0;
    informed[0].observed_time_unix_nano = 0;
    assert_eq!(noticed, informed);
    assert_eq!(noticed[0].encode_to_vec(), informed[0].encode_to_vec());
}

#[test]
fn recorded_entry_sets_nothing_else() {
    let mut logs = Logs::new();
    logs.record(LogEntry {
        time_unix_nano: 10,
        observed_time_unix_nano: 20,
        severity: Severity::Fatal,
        body: "stop".to_string(),
    });
    let records = decode_records(logs);
    assert_eq!(records.len(), 1);
    let record = &records[0];
    assert_eq!(record.time_unix_nano, 10);
    assert_eq!(record.observed_time_unix_nano, 20);
    assert_eq!(record.severity_number, 21);
    assert_eq!(record.severity_text, "");
    assert_eq!(body_of(record), Value::StringValue("stop".to_string()));
    assert!(record.attributes.is_empty());
    assert!(record.trace_id.is_empty());
    assert!(record.span_id.is_empty());
    assert_eq!(record.flags, 0);
}

#[test]
fn equal_entries_give_equal_payloads() {
    let entry = || LogEntry {
        time_unix_nano: 1,
        observed_time_unix_nano: 2,
        severity: Severity::Info,
        body: "x".to_string(),
    };
    let mut first = Logs::new();
    first.record(entry());
    let mut second = Logs::new();
    second.record(entry());
    let mut first_buf = BytesMut::new();
    first.get_serialized(&mut first_buf);
    let mut second_buf = BytesMut::new();
    second.get_serialized(&mut second_buf);
    assert_eq!(first_buf, second_buf);
    assert!(!first_buf.is_empty());
}

#[test]
fn empty_logs_payload_carries_resource_and_scope() {
    let mut buf = BytesMut::new();
    Logs::new().get_serialized(&mut buf);
    let data = LogsData::decode(&buf[..]).unwrap();
    let resource_logs = &data.resource_logs[0];
    let resource = resource_logs.resource.as_ref().unwrap();
    let keys: Vec<&str> = resource.attributes.iter().map(|kv| kv.key.as_str()).collect();
    assert_eq!(keys, vec!["service.name", "service", "env"]);
    let scope = resource_logs.scope_logs[0].scope.as_ref().unwrap();
    assert_eq!(scope.name, "kong-gateway-efficient-tracing-subsystem");
    assert!(resource_logs.scope_logs[0].log_records.is_empty());
}

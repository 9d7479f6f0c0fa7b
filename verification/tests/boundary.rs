use bytes::BytesMut;
use lua_resty_protobuf::boundary::logs::{
    lua_resty_protobuf_logs_add_error, lua_resty_protobuf_logs_add_fatal,
    lua_resty_protobuf_logs_add_info, lua_resty_protobuf_logs_add_warn,
    lua_resty_protobuf_logs_get_serialized, lua_resty_protobuf_logs_new,
};
use lua_resty_protobuf::boundary::metrics::{
    lua_resty_protobuf_metrics_add_gauge, lua_resty_protobuf_metrics_add_sum,
    lua_resty_protobuf_metrics_get_serialized, lua_resty_protobuf_metrics_new,
};
use lua_resty_protobuf::boundary::trace::{
    lua_resty_protobuf_trace_add_bool_attribute, lua_resty_protobuf_trace_add_double_attribute,
    lua_resty_protobuf_trace_add_int64_attribute, lua_resty_protobuf_trace_add_string_attribute,
    lua_resty_protobuf_trace_enter_span, lua_resty_protobuf_trace_exit_span,
    lua_resty_protobuf_trace_get_serialized, lua_resty_protobuf_trace_new,
};
use lua_resty_protobuf::boundary::utils::write_error_buffer;
use lua_resty_protobuf::boundary::{STATUS_INVALID_TEXT, STATUS_NO_OPEN_SPAN, STATUS_OK};
use lua_resty_protobuf::{Logs, Metrics};
use opentelemetry_proto::tonic::common::v1::any_value::Value;
use opentelemetry_proto::tonic::logs::v1::LogsData;
use opentelemetry_proto::tonic::metrics::v1::metric::Data;
use opentelemetry_proto::tonic::metrics::v1::number_data_point;
use opentelemetry_proto::tonic::metrics::v1::MetricsData;
use opentelemetry_proto::tonic::trace::v1::TracesData;
use prost::Message;

const NOT_UTF8: &[u8] = &[b'a', 0xff, b'b'];

fn count_log_records(logs: Logs) -> usize {
    let mut buf = BytesMut::new();
    logs.get_serialized(&mut buf);
    let data = LogsData::decode(&buf[..]).unwrap();
    data.resource_logs[0].scope_logs[0].log_records.len()
}

fn count_metrics(metrics: Metrics) -> usize {
    let mut buf = BytesMut::new();
    metrics.get_serialized(&mut buf);
    let data = MetricsData::decode(&buf[..]).unwrap();
    data.resource_metrics[0].scope_metrics[0].metrics.len()
}

#[test]
fn error_buffer_takes_the_whole_message_and_a_nul() {
    let mut buf = [0xaau8; 8];
    write_error_buffer(&mut buf, &"abc".to_string());
    assert_eq!(buf, [b'a', b'b', b'c', 0, 0xaa, 0xaa, 0xaa, 0xaa]);
}

#[test]
fn error_buffer_cuts_the_message_to_fit() {
    let mut buf = [0xaau8; 4];
    write_error_buffer(&mut buf, &"abcdef".to_string());
    assert_eq!(buf, [b'a', b'b', b'c', 0]);
    let mut exact = [0xaau8; 4];
    write_error_buffer(&mut exact, &"abc".to_string());
    assert_eq!(exact, [b'a', b'b', b'c', 0]);
    let mut one = [0xaau8; 1];
    write_error_buffer(&mut one, &"abc".to_string());
    assert_eq!(one, [0]);
}

#[test]
fn error_buffer_without_room_is_left_alone() {
    let mut buf: [u8; 0] = [];
    write_error_buffer(&mut buf, &"abc".to_string());
    assert_eq!(buf.len(), 0);
    let mut empty_message = [0xaau8; 2];
    write_error_buffer(&mut empty_message, &String::new());
    assert_eq!(empty_message, [0, 0xaa]);
}

#[test]
fn invalid_text_is_reported_and_nothing_recorded() {
    let mut logs = lua_resty_protobuf_logs_new();
    let mut err_buf = [0xaau8; 4];
    let status = lua_resty_protobuf_logs_add_info(&mut logs, 1, NOT_UTF8, &mut err_buf);
    assert_eq!(status, STATUS_INVALID_TEXT);
    assert_eq!(status, 1);
    assert_eq!(err_buf, [b'a', b'r', b'g', 0]);
    assert_eq!(count_log_records(logs), 0);
}

#[test]
fn invalid_text_report_names_the_argument() {
    let mut logs = lua_resty_protobuf_logs_new();
    let mut err_buf = [0xaau8; 256];
    let status = lua_resty_protobuf_logs_add_error(&mut logs, 1, NOT_UTF8, &mut err_buf);
    assert_eq!(status, 1);
    let end = err_buf.iter().position(|b| *b == 0).unwrap();
    let message = std::str::from_utf8(&err_buf[..end]).unwrap();
    let prefix = "arguement `message` is not a valid utf-8 string: ";
    assert!(message.starts_with(prefix));
    let detail = std::str::from_utf8(NOT_UTF8).unwrap_err().to_string();
    assert_eq!(&message[prefix.len()..], detail);
    assert_eq!(err_buf[end + 1], 0xaa);
    assert_eq!(count_log_records(logs), 0);
}

#[test]
fn invalid_text_with_no_error_buffer() {
    let mut metrics = lua_resty_protobuf_metrics_new();
    let mut err_buf: [u8; 0] = [];
    assert_eq!(lua_resty_protobuf_metrics_add_gauge(&mut metrics, NOT_UTF8, 1, &mut err_buf), 1);
    assert_eq!(lua_resty_protobuf_metrics_add_sum(&mut metrics, NOT_UTF8, 1, &mut err_buf), 1);
    assert_eq!(count_metrics(metrics), 0);
}

#[test]
fn valid_text_leaves_the_error_buffer_alone() {
    let mut logs = lua_resty_protobuf_logs_new();
    let mut err_buf = [0xaau8; 8];
    assert_eq!(lua_resty_protobuf_logs_add_info(&mut logs, 1, b"i", &mut err_buf), STATUS_OK);
    assert_eq!(lua_resty_protobuf_logs_add_warn(&mut logs, 2, b"w", &mut err_buf), 0);
    assert_eq!(lua_resty_protobuf_logs_add_error(&mut logs, 3, "é".as_bytes(), &mut err_buf), 0);
    assert_eq!(lua_resty_protobuf_logs_add_fatal(&mut logs, 4, b"", &mut err_buf), 0);
    assert_eq!(err_buf, [0xaau8; 8]);
    let mut out = [0u8; 1024];
    let written = lua_resty_protobuf_logs_get_serialized(logs, &mut out) as usize;
    let data = LogsData::decode(&out[..written]).unwrap();
    let seen: Vec<(u64, i32, Value)> = data.resource_logs[0].scope_logs[0]
        .log_records
        .iter()
        .map(|r| (r.time_unix_nano, r.severity_number, r.body.clone().unwrap().value.unwrap()))
        .collect();
    assert_eq!(
        seen,
        vec![
            (1, 9, Value::StringValue("i".to_string())),
            (2, 13, Value::StringValue("w".to_string())),
            (3, 17, Value::StringValue("é".to_string())),
            (4, 21, Value::StringValue("".to_string())),
        ]
    );
}

#[test]
fn metrics_boundary_records_gauges_and_sums() {
    let mut metrics = lua_resty_protobuf_metrics_new();
    let mut err_buf = [0u8; 16];
    assert_eq!(lua_resty_protobuf_metrics_add_gauge(&mut metrics, b"g", 3, &mut err_buf), 0);
    assert_eq!(lua_resty_protobuf_metrics_add_sum(&mut metrics, b"s", -4, &mut err_buf), 0);
    let mut out = [0u8; 1024];
    let written = lua_resty_protobuf_metrics_get_serialized(metrics, &mut out) as usize;
    assert!(written > 0);
    let data = MetricsData::decode(&out[..written]).unwrap();
    let decoded = &data.resource_metrics[0].scope_metrics[0].metrics;
    assert_eq!(decoded.len(), 2);
    assert_eq!(decoded[0].name, "g");
    match decoded[0].data.as_ref().unwrap() {
        Data::Gauge(gauge) => {
            assert_eq!(gauge.data_points[0].value, Some(number_data_point::Value::AsInt(3)))
        }
        _ => panic!("a gauge was recorded"),
    }
    assert_eq!(decoded[1].name, "s");
    match decoded[1].data.as_ref().unwrap() {
        Data::Sum(sum) => {
            assert_eq!(sum.data_points[0].value, Some(number_data_point::Value::AsInt(-4)))
        }
        _ => panic!("a sum was recorded"),
    }
}

#[test]
fn output_too_small_gives_zero_and_leaves_the_buffer() {
    let mut logs = lua_resty_protobuf_logs_new();
    let mut err_buf = [0u8; 8];
    assert_eq!(lua_resty_protobuf_logs_add_info(&mut logs, 1, b"hello", &mut err_buf), 0);
    let mut small = [0xaau8; 8];
    assert_eq!(lua_resty_protobuf_logs_get_serialized(logs, &mut small), 0);
    assert_eq!(small, [0xaau8; 8]);
    let mut none: [u8; 0] = [];
    let metrics = lua_resty_protobuf_metrics_new();
    assert_eq!(lua_resty_protobuf_metrics_get_serialized(metrics, &mut none), 0);
    let mut tiny = [0xaau8; 1];
    let traces = lua_resty_protobuf_trace_new();
    assert_eq!(lua_resty_protobuf_trace_get_serialized(traces, &mut tiny), 0);
    assert_eq!(tiny, [0xaa]);
}

#[test]
fn output_that_fits_exactly_is_written() {
    let mut expected = BytesMut::new();
    Logs::new().get_serialized(&mut expected);
    let mut out = vec![0xaau8; expected.len()];
    let written = lua_resty_protobuf_logs_get_serialized(lua_resty_protobuf_logs_new(), &mut out);
    assert_eq!(written as usize, expected.len());
    assert_eq!(&out[..], &expected[..]);
    let mut short = vec![0xaau8; expected.len() - 1];
    let logs = lua_resty_protobuf_logs_new();
    assert_eq!(lua_resty_protobuf_logs_get_serialized(logs, &mut short), 0);
    let mut long = vec![0xaau8; expected.len() + 3];
    let written = lua_resty_protobuf_logs_get_serialized(lua_resty_protobuf_logs_new(), &mut long);
    assert_eq!(written as usize, expected.len());
    assert_eq!(&long[..expected.len()], &expected[..]);
    assert_eq!(&long[expected.len()..], &[0xaa, 0xaa, 0xaa]);
}

#[test]
fn trace_boundary_round_trip() {
    let mut traces = lua_resty_protobuf_trace_new();
    let mut err_buf = [0xaau8; 64];
    assert_eq!(lua_resty_protobuf_trace_enter_span(&mut traces, b"outer", &mut err_buf), 0);
    assert_eq!(lua_resty_protobuf_trace_enter_span(&mut traces, b"inner", &mut err_buf), 0);
    assert_eq!(
        lua_resty_protobuf_trace_add_string_attribute(&mut traces, b"k", b"v", &mut err_buf),
        0
    );
    assert_eq!(lua_resty_protobuf_trace_add_bool_attribute(&mut traces, b"t", 7, &mut err_buf), 0);
    assert_eq!(lua_resty_protobuf_trace_add_bool_attribute(&mut traces, b"f", 0, &mut err_buf), 0);
    assert_eq!(lua_resty_protobuf_trace_add_int64_attribute(&mut traces, b"i", 9, &mut err_buf), 0);
    assert_eq!(
        lua_resty_protobuf_trace_add_double_attribute(
            &mut traces,
            b"d",
            3.5f64.to_bits(),
            &mut err_buf
        ),
        0
    );
    assert_eq!(lua_resty_protobuf_trace_exit_span(&mut traces), 0);
    assert_eq!(lua_resty_protobuf_trace_exit_span(&mut traces), 0);
    assert_eq!(err_buf, [0xaau8; 64]);
    let mut out = vec![0u8; 4096];
    let written = lua_resty_protobuf_trace_get_serialized(traces, &mut out) as usize;
    let data = TracesData::decode(&out[..written]).unwrap();
    let spans = &data.resource_spans[0].scope_spans[0].spans;
    assert_eq!(spans.len(), 2);
    assert_eq!(spans[0].name, "inner");
    assert_eq!(spans[1].name, "outer");
    assert_eq!(spans[0].parent_span_id, spans[1].span_id);
    assert!(spans[1].parent_span_id.is_empty());
    assert_eq!(spans[0].trace_id, spans[1].trace_id);
    assert_eq!(spans[0].trace_id.len(), 16);
    let values: Vec<(String, Value)> = spans[0]
        .attributes
        .iter()
        .map(|kv| (kv.key.clone(), kv.value.clone().unwrap().value.unwrap()))
        .collect();
    assert_eq!(
        values,
        vec![
            ("k".to_string(), Value::StringValue("v".to_string())),
            ("t".to_string(), Value::BoolValue(true)),
            ("f".to_string(), Value::BoolValue(false)),
            ("i".to_string(), Value::IntValue(9)),
            ("d".to_string(), Value::DoubleValue(3.5)),
        ]
    );
    assert!(spans[1].attributes.is_empty());
}

#[test]
fn trace_boundary_reports_state_violations() {
    let mut traces = lua_resty_protobuf_trace_new();
    assert_eq!(lua_resty_protobuf_trace_exit_span(&mut traces), STATUS_NO_OPEN_SPAN);
    assert_eq!(lua_resty_protobuf_trace_exit_span(&mut traces), 2);
    let mut err_buf = [0xaau8; 32];
    assert_eq!(
        lua_resty_protobuf_trace_add_int64_attribute(&mut traces, b"k", 1, &mut err_buf),
        STATUS_NO_OPEN_SPAN
    );
    assert_eq!(&err_buf[..25], b"No span to add attribute\0");
    assert_eq!(err_buf[25], 0xaa);
    let mut small = [0xaau8; 3];
    assert_eq!(
        lua_resty_protobuf_trace_add_string_attribute(&mut traces, b"k", b"v", &mut small),
        2
    );
    assert_eq!(small, [b'N', b'o', 0]);
    assert_eq!(lua_resty_protobuf_trace_enter_span(&mut traces, b"late", &mut err_buf), 0);
    assert_eq!(lua_resty_protobuf_trace_exit_span(&mut traces), 0);
    let mut out = vec![0u8; 4096];
    let written = lua_resty_protobuf_trace_get_serialized(traces, &mut out) as usize;
    let data = TracesData::decode(&out[..written]).unwrap();
    let spans = &data.resource_spans[0].scope_spans[0].spans;
    assert_eq!(spans.len(), 1);
    assert_eq!(spans[0].name, "late");
    assert!(spans[0].attributes.is_empty());
}

#[test]
fn trace_boundary_validates_key_before_value() {
    let mut traces = lua_resty_protobuf_trace_new();
    let mut err_buf = [0xaau8; 16];
    assert_eq!(lua_resty_protobuf_trace_enter_span(&mut traces, NOT_UTF8, &mut err_buf), 1);
    assert_eq!(&err_buf[..15], b"arguement `name");
    assert_eq!(err_buf[15], 0);
    assert_eq!(lua_resty_protobuf_trace_enter_span(&mut traces, b"s", &mut err_buf), 0);
    let mut key_buf = [0xaau8; 16];
    assert_eq!(
        lua_resty_protobuf_trace_add_string_attribute(
            &mut traces,
            NOT_UTF8,
            NOT_UTF8,
            &mut key_buf
        ),
        1
    );
    assert_eq!(&key_buf[..15], b"arguement `key`");
    let mut value_buf = [0xaau8; 16];
    assert_eq!(
        lua_resty_protobuf_trace_add_string_attribute(&mut traces, b"k", NOT_UTF8, &mut value_buf),
        1
    );
    assert_eq!(&value_buf[..15], b"arguement `valu");
    let status =
        lua_resty_protobuf_trace_add_bool_attribute(&mut traces, NOT_UTF8, 1, &mut err_buf);
    assert_eq!(status, 1);
    let status =
        lua_resty_protobuf_trace_add_int64_attribute(&mut traces, NOT_UTF8, 1, &mut err_buf);
    assert_eq!(status, 1);
    let status =
        lua_resty_protobuf_trace_add_double_attribute(&mut traces, NOT_UTF8, 1, &mut err_buf);
    assert_eq!(status, 1);
    assert_eq!(lua_resty_protobuf_trace_exit_span(&mut traces), 0);
    let mut out = vec![0u8; 4096];
    let written = lua_resty_protobuf_trace_get_serialized(traces, &mut out) as usize;
    let data = TracesData::decode(&out[..written]).unwrap();
    let spans = &data.resource_spans[0].scope_spans[0].spans;
    assert_eq!(spans.len(), 1);
    assert!(spans[0].attributes.is_empty());
}

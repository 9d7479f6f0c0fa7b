use bytes::BytesMut;
use lua_resty_protobuf::trace::TraceError;
use lua_resty_protobuf::Traces;
use opentelemetry_proto::tonic::common::v1::any_value::Value;
use opentelemetry_proto::tonic::trace::v1::{Span, TracesData};
use prost::Message;

fn decode_spans(traces: Traces) -> Vec<Span> {
    let mut buf = BytesMut::new();
    traces.get_serialized(&mut buf);
    let mut data = TracesData::decode(&buf[..]).unwrap();
    assert_eq!(data.resource_spans.len(), 1);
    let mut resource_spans = data.resource_spans.remove(0);
    assert_eq!(resource_spans.scope_spans.len(), 1);
    resource_spans.scope_spans.remove(0).spans
}

#[test]
fn nested_spans_round_trip() {
    let mut traces = Traces::new();
    traces.enter_span("outer");
    traces.enter_span("inner");
    assert_eq!(traces.exit_span(), Ok(()));
    assert_eq!(traces.exit_span(), Ok(()));
    let spans = decode_spans(traces);
    assert_eq!(spans.len(), 2);
    let inner = &spans[0];
    let outer = &spans[1];
    assert_eq!(inner.name, "inner");
    assert_eq!(outer.name, "outer");
    assert_eq!(inner.parent_span_id, outer.span_id);
    assert!(outer.parent_span_id.is_empty());
    assert_eq!(outer.trace_id.len(), 16);
    assert_eq!(inner.trace_id, outer.trace_id);
    assert_eq!(inner.span_id.len(), 8);
    assert_eq!(outer.span_id.len(), 8);
}

#[test]
fn exit_without_open_span_is_reported() {
    let mut traces = Traces::new();
    assert_eq!(traces.exit_span(), Err(TraceError::NoOpenSpan));
    traces.enter_span_at("only", vec![1, 2, 3, 4, 5, 6, 7, 8], 10);
    assert_eq!(traces.exit_span_at(25), Ok(()));
    assert_eq!(traces.exit_span_at(30), Err(TraceError::NoOpenSpan));
    let spans = decode_spans(traces);
    assert_eq!(spans.len(), 1);
    assert_eq!(spans[0].name, "only");
    assert_eq!(spans[0].span_id, vec![1, 2, 3, 4, 5, 6, 7, 8]);
    assert_eq!(spans[0].start_time_unix_nano, 10);
    assert_eq!(spans[0].end_time_unix_nano, 25);
}

#[test]
fn attributes_attach_to_innermost_open_span() {
    let mut traces = Traces::new();
    assert_eq!(traces.add_string_attribute("k", "v"), Err(TraceError::NoOpenSpan));
    traces.enter_span_at("outer", vec![1; 8], 1);
    assert_eq!(traces.add_string_attribute("where", "outer-before"), Ok(()));
    traces.enter_span_at("inner", vec![2; 8], 2);
    assert_eq!(traces.add_bool_attribute("flag", true), Ok(()));
    assert_eq!(traces.add_int64_attribute("count", -7), Ok(()));
    assert_eq!(traces.add_double_attribute("ratio", 1.5f64.to_bits()), Ok(()));
    assert_eq!(traces.exit_span_at(3), Ok(()));
    assert_eq!(traces.add_string_attribute("where", "outer-after"), Ok(()));
    assert_eq!(traces.exit_span_at(4), Ok(()));
    assert_eq!(traces.add_string_attribute("late", "x"), Err(TraceError::NoOpenSpan));
    let spans = decode_spans(traces);
    assert_eq!(spans.len(), 2);
    let inner = &spans[0];
    let outer = &spans[1];
    let values = |span: &Span| -> Vec<(String, Value)> {
        span.attributes
            .iter()
            .map(|kv| (kv.key.clone(), kv.value.clone().unwrap().value.unwrap()))
            .collect()
    };
    assert_eq!(
        values(inner),
        vec![
            ("flag".to_string(), Value::BoolValue(true)),
            ("count".to_string(), Value::IntValue(-7)),
            ("ratio".to_string(), Value::DoubleValue(1.5)),
        ]
    );
    assert_eq!(
        values(outer),
        vec![
            ("where".to_string(), Value::StringValue("outer-before".to_string())),
            ("where".to_string(), Value::StringValue("outer-after".to_string())),
        ]
    );
    assert_eq!(inner.parent_span_id, vec![1; 8]);
    assert_eq!(inner.span_id, vec![2; 8]);
}

#[test]
fn open_spans_are_dropped_at_serialization() {
    let mut traces = Traces::new();
    traces.enter_span_at("closed", vec![3; 8], 5);
    assert_eq!(traces.exit_span_at(6), Ok(()));
    traces.enter_span_at("left-open", vec![4; 8], 7);
    let spans = decode_spans(traces);
    assert_eq!(spans.len(), 1);
    assert_eq!(spans[0].name, "closed");
}

#[test]
fn siblings_share_their_parent() {
    let mut traces = Traces::new();
    traces.enter_span_at("root", vec![1; 8], 1);
    traces.enter_span_at("first", vec![2; 8], 2);
    assert_eq!(traces.exit_span_at(3), Ok(()));
    traces.enter_span_at("second", vec![3; 8], 4);
    traces.enter_span_at("grandchild", vec![4; 8], 5);
    assert_eq!(traces.exit_span_at(6), Ok(()));
    assert_eq!(traces.exit_span_at(7), Ok(()));
    assert_eq!(traces.exit_span_at(8), Ok(()));
    let spans = decode_spans(traces);
    let names: Vec<&str> = spans.iter().map(|s| s.name.as_str()).collect();
    assert_eq!(names, vec!["first", "grandchild", "second", "root"]);
    assert_eq!(spans[0].parent_span_id, vec![1; 8]);
    assert_eq!(spans[1].parent_span_id, vec![3; 8]);
    assert_eq!(spans[2].parent_span_id, vec![1; 8]);
    assert_eq!(spans[3].parent_span_id, Vec::<u8>::new());
    let times: Vec<(u64, u64)> =
        spans.iter().map(|s| (s.start_time_unix_nano, s.end_time_unix_nano)).collect();
    assert_eq!(times, vec![(2, 3), (5, 6), (4, 7), (1, 8)]);
}

#[test]
fn span_message_sets_nothing_else() {
    let mut traces = Traces::new();
    traces.enter_span_at("plain", vec![9; 8], 11);
    assert_eq!(traces.exit_span_at(12), Ok(()));
    let spans = decode_spans(traces);
    let span = &spans[0];
    assert_eq!(span.trace_state, "");
    assert_eq!(span.flags, 0);
    assert_eq!(span.kind, 0);
    assert!(span.attributes.is_empty());
    assert!(span.events.is_empty());
    assert!(span.links.is_empty());
    assert_eq!(span.status, None);
    assert_eq!(span.dropped_attributes_count, 0);
}

#[test]
fn payload_carries_resource_and_scope() {
    let traces = Traces::new();
    let mut buf = BytesMut::new();
    traces.get_serialized(&mut buf);
    let data = TracesData::decode(&buf[..]).unwrap();
    let resource_spans = &data.resource_spans[0];
    let resource = resource_spans.resource.as_ref().unwrap();
    let identity: Vec<(String, Value)> = resource
        .attributes
        .iter()
        .map(|kv| (kv.key.clone(), kv.value.clone().unwrap().value.unwrap()))
        .collect();
    assert_eq!(
        identity,
        vec![
            ("service.name".to_string(), Value::StringValue("kong-gateway-qiqi-demo".to_string())),
            ("service".to_string(), Value::StringValue("kong-gateway-qiqi-demo".to_string())),
            ("env".to_string(), Value::StringValue("dev".to_string())),
        ]
    );
    let scope = resource_spans.scope_spans[0].scope.as_ref().unwrap();
    assert_eq!(scope.name, "kong-gateway-efficient-tracing-subsystem");
    assert_eq!(scope.version, "");
    assert!(resource_spans.scope_spans[0].spans.is_empty());
}

#[test]
fn payload_is_appended_to_the_buffer() {
    let mut first = BytesMut::new();
    let mut traces = Traces::new();
    traces.enter_span_at("a", vec![1; 8], 1);
    assert_eq!(traces.exit_span_at(2), Ok(()));
    first.extend_from_slice(b"head");
    traces.get_serialized(&mut first);
    assert_eq!(&first[..4], b"head");
    let data = TracesData::decode(&first[4..]).unwrap();
    assert_eq!(data.resource_spans[0].scope_spans[0].spans[0].name, "a");
}

#[test]
fn span_identifiers_are_drawn_fresh() {
    let mut traces = Traces::new();
    traces.enter_span("a");
    assert_eq!(traces.exit_span(), Ok(()));
    traces.enter_span("b");
    assert_eq!(traces.exit_span(), Ok(()));
    let spans = decode_spans(traces);
    assert_ne!(spans[0].span_id, spans[1].span_id);
    assert_ne!(spans[0].span_id, vec![0u8; 8]);
    assert_ne!(spans[0].trace_id, vec![0u8; 16]);
    assert!(spans[0].start_time_unix_nano > 1_500_000_000_000_000_000);
    assert!(spans[0].end_time_unix_nano > 1_500_000_000_000_000_000);
}

#[test]
fn double_attributes_keep_their_bits() {
    let patterns: [u64; 4] =
        [0x8000_0000_0000_0000, 0xfff0_0000_0000_0000, 0x7ff8_0000_0000_0001, 0x4009_21fb_5444_2d18];
    let mut traces = Traces::new();
    traces.enter_span_at("s", vec![5; 8], 1);
    for bits in patterns {
        assert_eq!(traces.add_double_attribute("d", bits), Ok(()));
    }
    assert_eq!(traces.exit_span_at(2), Ok(()));
    let spans = decode_spans(traces);
    assert_eq!(spans[0].attributes.len(), patterns.len());
    for (kv, bits) in spans[0].attributes.iter().zip(patterns) {
        match kv.value.clone().unwrap().value.unwrap() {
            Value::DoubleValue(double) => assert_eq!(double.to_bits(), bits),
            _ => panic!("a double was attached"),
        }
    }
}

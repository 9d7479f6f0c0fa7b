//! The trace messages: `TracesData` and what it is made of.
use crate::schema::common::{
    key_value_messages, resource_message, scope_message, InstrumentationScopeMessage,
    KeyValueMessage, ResourceMessage,
};
use opentelemetry_proto::tonic::trace::v1::span::{Event, Link};
use opentelemetry_proto::tonic::trace::v1::{ResourceSpans, ScopeSpans, Span, Status, TracesData};
use prost::Message;
use vstd::prelude::*;

verus! {

#[verifier::external_type_specification]
#[verifier::external_body]
pub struct ExEvent(opentelemetry_proto::tonic::trace::v1::span::Event);

#[verifier::external_type_specification]
#[verifier::external_body]
pub struct ExLink(opentelemetry_proto::tonic::trace::v1::span::Link);

#[verifier::external_type_specification]
#[verifier::external_body]
pub struct ExStatus(opentelemetry_proto::tonic::trace::v1::Status);

#[verifier::external_type_specification]
pub struct ExSpan(opentelemetry_proto::tonic::trace::v1::Span);

#[verifier::external_type_specification]
pub struct ExScopeSpans(opentelemetry_proto::tonic::trace::v1::ScopeSpans);

#[verifier::external_type_specification]
pub struct ExResourceSpans(opentelemetry_proto::tonic::trace::v1::ResourceSpans);

#[verifier::external_type_specification]
pub struct ExTracesData(opentelemetry_proto::tonic::trace::v1::TracesData);

/// What a `Span` message holds.
pub struct SpanMessage {
    pub trace_id: Seq<u8>,
    pub span_id: Seq<u8>,
    pub trace_state: Seq<char>,
    pub parent_span_id: Seq<u8>,
    pub flags: u32,
    pub name: Seq<char>,
    pub kind: i32,
    pub start_time_unix_nano: u64,
    pub end_time_unix_nano: u64,
    pub attributes: Seq<KeyValueMessage>,
    pub dropped_attributes_count: u32,
    pub events: Seq<Event>,
    pub dropped_events_count: u32,
    pub links: Seq<Link>,
    pub dropped_links_count: u32,
    pub status: Option<Status>,
}

/// What the `Span` message `span` holds.
pub open spec fn span_message(span: Span) -> SpanMessage {
    SpanMessage {
        trace_id: span.trace_id@,
        span_id: span.span_id@,
        trace_state: span.trace_state@,
        parent_span_id: span.parent_span_id@,
        flags: span.flags,
        name: span.name@,
        kind: span.kind,
        start_time_unix_nano: span.start_time_unix_nano,
        end_time_unix_nano: span.end_time_unix_nano,
        attributes: key_value_messages(span.attributes@),
        dropped_attributes_count: span.dropped_attributes_count,
        events: span.events@,
        dropped_events_count: span.dropped_events_count,
        links: span.links@,
        dropped_links_count: span.dropped_links_count,
        status: span.status,
    }
}

/// What a sequence of `Span` messages holds, item by item.
pub open spec fn span_messages(spans: Seq<Span>) -> Seq<SpanMessage> {
    Seq::new(spans.len(), |i: int| span_message(spans[i]))
}

/// What a `ScopeSpans` holds.
pub struct ScopeSpansMessage {
    pub scope: Option<InstrumentationScopeMessage>,
    pub spans: Seq<SpanMessage>,
    pub schema_url: Seq<char>,
}

/// What the `ScopeSpans` `scope_spans` holds.
pub open spec fn scope_spans_message(scope_spans: ScopeSpans) -> ScopeSpansMessage {
    ScopeSpansMessage {
        scope: match scope_spans.scope {
            Some(scope) => Some(scope_message(scope)),
            None => None,
        },
        spans: span_messages(scope_spans.spans@),
        schema_url: scope_spans.schema_url@,
    }
}

/// What a `ResourceSpans` holds.
pub struct ResourceSpansMessage {
    pub resource: Option<ResourceMessage>,
    pub scope_spans: Seq<ScopeSpansMessage>,
    pub schema_url: Seq<char>,
}

/// What the `ResourceSpans` `resource_spans` holds.
pub open spec fn resource_spans_message(resource_spans: ResourceSpans) -> ResourceSpansMessage {
    ResourceSpansMessage {
        resource: match resource_spans.resource {
            Some(resource) => Some(resource_message(resource)),
            None => None,
        },
        scope_spans: Seq::new(
            resource_spans.scope_spans@.len(),
            |i: int| scope_spans_message(resource_spans.scope_spans@[i]),
        ),
        schema_url: resource_spans.schema_url@,
    }
}

/// What a `TracesData` holds.
pub struct TracesDataMessage {
    pub resource_spans: Seq<ResourceSpansMessage>,
}

/// What the `TracesData` `data` holds.
pub open spec fn traces_data_message(data: TracesData) -> TracesDataMessage {
    TracesDataMessage {
        resource_spans: Seq::new(
            data.resource_spans@.len(),
            |i: int| resource_spans_message(data.resource_spans@[i]),
        ),
    }
}

/// The protobuf encoding of a `TracesData` that holds `data`.
pub uninterp spec fn traces_encoding(data: TracesDataMessage) -> Seq<u8>;

/// Encodes `data` with prost's `Message::encode_to_vec`. The bytes are a
/// function of what the message holds, and nothing more is claimed of them.
#[verifier::external_body]
pub(crate) fn encode_traces(data: &TracesData) -> (bytes: Vec<u8>)
    ensures
        bytes@ == traces_encoding(traces_data_message(*data)),
{
    data.encode_to_vec()
}

} // verus!

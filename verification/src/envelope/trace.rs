//! The trace envelope: `TracesData` with one `ResourceSpans`, which holds one
//! `ScopeSpans`, which holds one `Span` for each closed span.
use crate::envelope::common::{
    attribute_messages, build_resource, build_scope, copy_bytes, resource_envelope,
    scope_envelope, to_key_values,
};
use crate::record::{SpanRecord, SpanRecordView};
use crate::schema::trace::{
    resource_spans_message, scope_spans_message, span_message, span_messages,
    traces_data_message, traces_encoding, ResourceSpansMessage, ScopeSpansMessage, SpanMessage,
    TracesDataMessage,
};
use opentelemetry_proto::tonic::trace::v1::{ResourceSpans, ScopeSpans, Span, TracesData};
use vstd::prelude::*;

verus! {

/// The `Span` message that stands for a span: its identifiers, name, times
/// and attributes, and nothing else set.
pub open spec fn span_envelope(span: SpanRecordView) -> SpanMessage {
    SpanMessage {
        trace_id: span.trace_id,
        span_id: span.span_id,
        trace_state: Seq::empty(),
        parent_span_id: span.parent_span_id,
        flags: 0,
        name: span.name,
        kind: 0,
        start_time_unix_nano: span.start_time_unix_nano,
        end_time_unix_nano: span.end_time_unix_nano,
        attributes: attribute_messages(span.attributes),
        dropped_attributes_count: 0,
        events: Seq::empty(),
        dropped_events_count: 0,
        links: Seq::empty(),
        dropped_links_count: 0,
        status: None,
    }
}

/// The `Span` messages that stand for a sequence of spans, in the same order.
pub open spec fn span_envelopes(spans: Seq<SpanRecordView>) -> Seq<SpanMessage> {
    Seq::new(spans.len(), |i: int| span_envelope(spans[i]))
}

/// The `TracesData` that carries `spans`: the resource, the scope, and the
/// spans in their order.
pub open spec fn traces_envelope(spans: Seq<SpanRecordView>) -> TracesDataMessage {
    TracesDataMessage {
        resource_spans: seq![
            ResourceSpansMessage {
                resource: Some(resource_envelope()),
                scope_spans: seq![
                    ScopeSpansMessage {
                        scope: Some(scope_envelope()),
                        spans: span_envelopes(spans),
                        schema_url: Seq::empty(),
                    },
                ],
                schema_url: Seq::empty(),
            },
        ],
    }
}

/// The payload that carries `spans`: the encoding of their envelope.
pub open spec fn traces_payload(spans: Seq<SpanRecordView>) -> Seq<u8> {
    traces_encoding(traces_envelope(spans))
}

/// The `Span` messages that the envelope of `spans` carries.
pub open spec fn carried_spans(spans: Seq<SpanRecordView>) -> Seq<SpanMessage> {
    traces_envelope(spans).resource_spans[0].scope_spans[0].spans
}

/// The envelope carries one `Span` message for each span, in the order of
/// the spans, with the identifiers, the name, the times and the attributes of
/// its span.
pub proof fn lemma_one_message_per_span(spans: Seq<SpanRecordView>)
    ensures
        carried_spans(spans).len() == spans.len(),
        forall|i: int|
            0 <= i < spans.len() ==> {
                &&& (#[trigger] carried_spans(spans)[i]).trace_id == spans[i].trace_id
                &&& carried_spans(spans)[i].span_id == spans[i].span_id
                &&& carried_spans(spans)[i].parent_span_id == spans[i].parent_span_id
                &&& carried_spans(spans)[i].name == spans[i].name
                &&& carried_spans(spans)[i].start_time_unix_nano == spans[i].start_time_unix_nano
                &&& carried_spans(spans)[i].end_time_unix_nano == spans[i].end_time_unix_nano
                &&& carried_spans(spans)[i].attributes == attribute_messages(spans[i].attributes)
            },
{
}

/// Builds the `Span` message that stands for `span`.
pub fn to_span(span: &SpanRecord) -> (message: Span)
    ensures
        span_message(message) == span_envelope(span@),
{
    Span {
        trace_id: copy_bytes(&span.trace_id),
        span_id: copy_bytes(&span.span_id),
        trace_state: String::new(),
        parent_span_id: copy_bytes(&span.parent_span_id),
        flags: 0,
        name: span.name.clone(),
        kind: 0,
        start_time_unix_nano: span.start_time_unix_nano,
        end_time_unix_nano: span.end_time_unix_nano,
        attributes: to_key_values(&span.attributes),
        dropped_attributes_count: 0,
        events: Vec::new(),
        dropped_events_count: 0,
        links: Vec::new(),
        dropped_links_count: 0,
        status: None,
    }
}

/// Builds the `Span` messages that stand for `spans`, in the same order.
pub fn to_spans(spans: &Vec<SpanRecord>) -> (messages: Vec<Span>)
    ensures
        span_messages(messages@) == span_envelopes(spans.deep_view()),
{
    let mut messages: Vec<Span> = Vec::new();
    let mut i: usize = 0;
    while i < spans.len()
        invariant
            i <= spans.len(),
            messages@.len() == i,
            forall|j: int|
                0 <= j < i ==> span_message(#[trigger] messages@[j]) == span_envelope(spans@[j]@),
        decreases spans.len() - i,
    {
        messages.push(to_span(&spans[i]));
        i += 1;
    }
    assert(span_messages(messages@) =~= span_envelopes(spans.deep_view()));
    messages
}

/// Builds the `TracesData` that carries `spans`.
pub fn traces_data(spans: &Vec<SpanRecord>) -> (data: TracesData)
    ensures
        traces_data_message(data) == traces_envelope(spans.deep_view()),
{
    let scope_spans = ScopeSpans {
        scope: Some(build_scope()),
        spans: to_spans(spans),
        schema_url: String::new(),
    };
    let mut all_scope_spans: Vec<ScopeSpans> = Vec::new();
    all_scope_spans.push(scope_spans);
    let resource_spans = ResourceSpans {
        resource: Some(build_resource()),
        scope_spans: all_scope_spans,
        schema_url: String::new(),
    };
    let mut all_resource_spans: Vec<ResourceSpans> = Vec::new();
    all_resource_spans.push(resource_spans);
    let data = TracesData { resource_spans: all_resource_spans };
    assert(resource_spans_message(data.resource_spans@[0]).scope_spans
        =~= traces_envelope(spans.deep_view()).resource_spans[0].scope_spans);
    assert(traces_data_message(data).resource_spans
        =~= traces_envelope(spans.deep_view()).resource_spans);
    data
}

} // verus!

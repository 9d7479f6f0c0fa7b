//! The boundary of the trace builder.
use crate::boundary::utils::{
    error_buffer_after, payload_written, reports_invalid_text, validate_text,
    write_error_buffer, write_payload,
};
use crate::boundary::{STATUS_INVALID_TEXT, STATUS_NO_OPEN_SPAN, STATUS_OK};
use crate::envelope::trace::traces_payload;
use crate::record::{Attribute, AttributeValue, AttributeValueView, AttributeView};
use crate::trace::{Traces, TracesView, SPAN_ID_LEN};
use bytes::BytesMut;
use vstd::prelude::*;
use vstd::utf8::{decode_utf8, encode_utf8, valid_utf8};

verus! {

/// The report of an attribute that found no open span.
pub open spec fn no_span_message() -> Seq<char> {
    "No span to add attribute"@
}

/// What attaching `attribute` leaves behind. With a span open, it is
/// attached to the innermost one and the error buffer stays as it is. With
/// none open, the builder stays as it is and the error buffer holds the
/// report.
pub open spec fn attach_outcome(
    before: TracesView,
    after: TracesView,
    err_before: Seq<u8>,
    err_after: Seq<u8>,
    status: i32,
    attribute: AttributeView,
) -> bool {
    if before.open.len() == 0 {
        &&& status == STATUS_NO_OPEN_SPAN
        &&& after == before
        &&& err_after == error_buffer_after(err_before, encode_utf8(no_span_message()))
    } else {
        &&& status == STATUS_OK
        &&& after == before.with_attribute(attribute)
        &&& err_after == err_before
    }
}

/// What a call that attaches an attribute with the key `key` leaves behind.
/// Given a key that is UTF-8, what attaching the attribute leaves behind.
/// Given any other, the builder stays as it is and the error buffer holds
/// the report.
pub open spec fn attribute_outcome(
    before: TracesView,
    after: TracesView,
    err_before: Seq<u8>,
    err_after: Seq<u8>,
    status: i32,
    key: Seq<u8>,
    value: AttributeValueView,
) -> bool {
    if valid_utf8(key) {
        attach_outcome(
            before,
            after,
            err_before,
            err_after,
            status,
            AttributeView { key: decode_utf8(key), value },
        )
    } else {
        &&& status == STATUS_INVALID_TEXT
        &&& after == before
        &&& reports_invalid_text(err_before, err_after, "key"@)
    }
}

/// Attaches `attribute` and reports the outcome as a status.
fn attach(traces: &mut Traces, attribute: Attribute, err_buf: &mut [u8]) -> (status: i32)
    ensures
        attach_outcome(
            old(traces)@,
            final(traces)@,
            old(err_buf)@,
            final(err_buf)@,
            status,
            attribute@,
        ),
{
    match traces.add_attribute(attribute) {
        Ok(()) => STATUS_OK,
        Err(_) => {
            write_error_buffer(err_buf, &"No span to add attribute".to_string());
            STATUS_NO_OPEN_SPAN
        },
    }
}

/// A new trace builder.
pub fn lua_resty_protobuf_trace_new() -> (traces: Traces)
    ensures
        traces@ == TracesView::empty(traces@.trace_id),
        traces@.well_formed(),
{
    Traces::new()
}

/// Writes the payload of `traces` to the start of `buf` and gives its
/// length, or gives zero and leaves `buf` as it is where the payload does not
/// fit. Either way the builder is gone.
pub fn lua_resty_protobuf_trace_get_serialized(traces: Traces, buf: &mut [u8]) -> (written: u32)
    requires
        old(buf)@.len() <= u32::MAX,
        old(buf)@.len() <= isize::MAX,
    ensures
        payload_written(old(buf)@, final(buf)@, written, traces_payload(traces@.closed)),
{
    let mut serialized = BytesMut::with_capacity(buf.len());
    traces.get_serialized(&mut serialized);
    write_payload(&serialized, buf)
}

/// Opens a span named `name`. A name that is not UTF-8 is reported in
/// `err_buf` and opens nothing.
pub fn lua_resty_protobuf_trace_enter_span(
    traces: &mut Traces,
    name: &[u8],
    err_buf: &mut [u8],
) -> (status: i32)
    ensures
        valid_utf8(name@) ==> status == STATUS_OK && final(err_buf)@ == old(err_buf)@,
        valid_utf8(name@) ==> exists|span_id: Seq<u8>, now: u64|
            span_id.len() == SPAN_ID_LEN && final(traces)@ == #[trigger] old(traces)@.enter(
                decode_utf8(name@),
                span_id,
                now,
            ),
        !valid_utf8(name@) ==> status == STATUS_INVALID_TEXT && final(traces)@ == old(traces)@,
        !valid_utf8(name@) ==> reports_invalid_text(old(err_buf)@, final(err_buf)@, "name"@),
{
    match validate_text(name, "name", err_buf) {
        None => STATUS_INVALID_TEXT,
        Some(name) => {
            traces.enter_span(name);
            STATUS_OK
        },
    }
}

/// Closes the innermost open span. With none open, the builder stays as it is.
pub fn lua_resty_protobuf_trace_exit_span(traces: &mut Traces) -> (status: i32)
    ensures
        old(traces)@.open.len() == 0 ==> status == STATUS_NO_OPEN_SPAN,
        old(traces)@.open.len() == 0 ==> final(traces)@ == old(traces)@,
        old(traces)@.open.len() > 0 ==> status == STATUS_OK && exists|now: u64|
            final(traces)@ == #[trigger] old(traces)@.exit(now),
{
    match traces.exit_span() {
        Ok(()) => STATUS_OK,
        Err(_) => STATUS_NO_OPEN_SPAN,
    }
}

/// Attaches a text attribute to the innermost open span. The key is
/// validated first, then the value.
pub fn lua_resty_protobuf_trace_add_string_attribute(
    traces: &mut Traces,
    key: &[u8],
    value: &[u8],
    err_buf: &mut [u8],
) -> (status: i32)
    ensures
        valid_utf8(key@) && valid_utf8(value@) ==> attach_outcome(
            old(traces)@,
            final(traces)@,
            old(err_buf)@,
            final(err_buf)@,
            status,
            AttributeView {
                key: decode_utf8(key@),
                value: AttributeValueView::Text(decode_utf8(value@)),
            },
        ),
        !valid_utf8(key@) || !valid_utf8(value@) ==> status == STATUS_INVALID_TEXT,
        !valid_utf8(key@) || !valid_utf8(value@) ==> final(traces)@ == old(traces)@,
        !valid_utf8(key@) ==> reports_invalid_text(old(err_buf)@, final(err_buf)@, "key"@),
        valid_utf8(key@) && !valid_utf8(value@) ==> reports_invalid_text(
            old(err_buf)@,
            final(err_buf)@,
            "value"@,
        ),
{
    let key = match validate_text(key, "key", err_buf) {
        None => {
            return STATUS_INVALID_TEXT;
        },
        Some(key) => key,
    };
    let value = match validate_text(value, "value", err_buf) {
        None => {
            return STATUS_INVALID_TEXT;
        },
        Some(value) => value,
    };
    attach(
        traces,
        Attribute { key: key.to_string(), value: AttributeValue::Text(value.to_string()) },
        err_buf,
    )
}

/// Attaches a boolean attribute to the innermost open span: true for any
/// `value` but zero.
pub fn lua_resty_protobuf_trace_add_bool_attribute(
    traces: &mut Traces,
    key: &[u8],
    value: i32,
    err_buf: &mut [u8],
) -> (status: i32)
    ensures
        attribute_outcome(
            old(traces)@,
            final(traces)@,
            old(err_buf)@,
            final(err_buf)@,
            status,
            key@,
            AttributeValueView::Bool(value != 0),
        ),
{
    match validate_text(key, "key", err_buf) {
        None => STATUS_INVALID_TEXT,
        Some(key) => attach(
            traces,
            Attribute { key: key.to_string(), value: AttributeValue::Bool(value != 0) },
            err_buf,
        ),
    }
}

/// Attaches a 64-bit signed integer attribute to the innermost open span.
pub fn lua_resty_protobuf_trace_add_int64_attribute(
    traces: &mut Traces,
    key: &[u8],
    value: i64,
    err_buf: &mut [u8],
) -> (status: i32)
    ensures
        attribute_outcome(
            old(traces)@,
            final(traces)@,
            old(err_buf)@,
            final(err_buf)@,
            status,
            key@,
            AttributeValueView::Int(value),
        ),
{
    match validate_text(key, "key", err_buf) {
        None => STATUS_INVALID_TEXT,
        Some(key) => attach(
            traces,
            Attribute { key: key.to_string(), value: AttributeValue::Int(value) },
            err_buf,
        ),
    }
}

/// Attaches a 64-bit float attribute to the innermost open span. The float
/// is given by its IEEE-754 bit pattern.
pub fn lua_resty_protobuf_trace_add_double_attribute(
    traces: &mut Traces,
    key: &[u8],
    value_bits: u64,
    err_buf: &mut [u8],
) -> (status: i32)
    ensures
        attribute_outcome(
            old(traces)@,
            final(traces)@,
            old(err_buf)@,
            final(err_buf)@,
            status,
            key@,
            AttributeValueView::Double(value_bits),
        ),
{
    match validate_text(key, "key", err_buf) {
        None => STATUS_INVALID_TEXT,
        Some(key) => attach(
            traces,
            Attribute { key: key.to_string(), value: AttributeValue::Double(value_bits) },
            err_buf,
        ),
    }
}

} // verus!

//! The boundary of the metric builder.
use crate::boundary::utils::{
    payload_written, reports_invalid_text, validate_text, write_payload,
};
use crate::boundary::{STATUS_INVALID_TEXT, STATUS_OK};
use crate::envelope::metrics::metrics_payload;
use crate::metrics::{recorded, Metrics};
use crate::record::{MetricKind, MetricPointView, MetricValue};
use bytes::BytesMut;
use vstd::prelude::*;
use vstd::utf8::{decode_utf8, valid_utf8};

verus! {

/// What a call that records a point leaves behind. Given a name that is
/// UTF-8, the point is recorded at the current time, and the error buffer
/// stays as it is. Given any other, no point is recorded and the error buffer
/// holds the report.
pub open spec fn metric_outcome(
    before: Seq<MetricPointView>,
    after: Seq<MetricPointView>,
    err_before: Seq<u8>,
    err_after: Seq<u8>,
    status: i32,
    name: Seq<u8>,
    kind: MetricKind,
    value: MetricValue,
) -> bool {
    if valid_utf8(name) {
        &&& status == STATUS_OK
        &&& err_after == err_before
        &&& exists|now: u64|
            after == #[trigger] recorded(before, decode_utf8(name), kind, now, value)
    } else {
        &&& status == STATUS_INVALID_TEXT
        &&& after == before
        &&& reports_invalid_text(err_before, err_after, "name"@)
    }
}

/// A new metric builder.
pub fn lua_resty_protobuf_metrics_new() -> (metrics: Metrics)
    ensures
        metrics@ == Seq::<MetricPointView>::empty(),
{
    Metrics::new()
}

/// Writes the payload of `metrics` to the start of `buf` and gives its
/// length, or gives zero and leaves `buf` as it is where the payload does not
/// fit. Either way the builder is gone.
pub fn lua_resty_protobuf_metrics_get_serialized(metrics: Metrics, buf: &mut [u8]) -> (written: u32)
    requires
        old(buf)@.len() <= u32::MAX,
        old(buf)@.len() <= isize::MAX,
    ensures
        payload_written(old(buf)@, final(buf)@, written, metrics_payload(metrics@)),
{
    let mut serialized = BytesMut::with_capacity(buf.len());
    metrics.get_serialized(&mut serialized);
    write_payload(&serialized, buf)
}

/// Records a gauge named `name` with an integer value.
pub fn lua_resty_protobuf_metrics_add_gauge(
    metrics: &mut Metrics,
    name: &[u8],
    value: i64,
    err_buf: &mut [u8],
) -> (status: i32)
    ensures
        metric_outcome(
            old(metrics)@,
            final(metrics)@,
            old(err_buf)@,
            final(err_buf)@,
            status,
            name@,
            MetricKind::Gauge,
            MetricValue::Int(value),
        ),
{
    match validate_text(name, "name", err_buf) {
        None => STATUS_INVALID_TEXT,
        Some(name) => {
            metrics.add_int64_gauge(name, value);
            STATUS_OK
        },
    }
}

/// Records a sum named `name` with an integer value.
pub fn lua_resty_protobuf_metrics_add_sum(
    metrics: &mut Metrics,
    name: &[u8],
    value: i64,
    err_buf: &mut [u8],
) -> (status: i32)
    ensures
        metric_outcome(
            old(metrics)@,
            final(metrics)@,
            old(err_buf)@,
            final(err_buf)@,
            status,
            name@,
            MetricKind::Sum,
            MetricValue::Int(value),
        ),
{
    match validate_text(name, "name", err_buf) {
        None => STATUS_INVALID_TEXT,
        Some(name) => {
            metrics.add_int64_sum(name, value);
            STATUS_OK
        },
    }
}

} // verus!

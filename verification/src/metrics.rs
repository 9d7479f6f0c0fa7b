//! The metric builder: the recorded points, in the order of their recording.
use crate::buffer::buffer_bytes;
use crate::clock::current_time_unix_nano;
use crate::envelope::metrics::{metrics_data, metrics_payload};
use crate::record::{MetricKind, MetricPoint, MetricPointView, MetricValue};
use crate::schema::metrics::encode_metrics;
use bytes::BytesMut;
use vstd::prelude::*;

verus! {

/// The points after one more was recorded at the time `now`: those before,
/// then the new one, whatever their names.
pub open spec fn recorded(
    points: Seq<MetricPointView>,
    name: Seq<char>,
    kind: MetricKind,
    now: u64,
    value: MetricValue,
) -> Seq<MetricPointView> {
    points.push(MetricPointView { name, kind, time_unix_nano: now, value })
}

/// The metric builder.
pub struct Metrics {
    points: Vec<MetricPoint>,
}

impl View for Metrics {
    type V = Seq<MetricPointView>;

    closed spec fn view(&self) -> Seq<MetricPointView> {
        self.points.deep_view()
    }
}

impl Metrics {
    /// A builder with no points.
    pub fn new() -> (metrics: Metrics)
        ensures
            metrics@ == Seq::<MetricPointView>::empty(),
    {
        let metrics = Metrics { points: Vec::new() };
        assert(metrics.points.deep_view() =~= Seq::empty());
        metrics
    }

    /// Appends `point` as an entry of its own, whatever the names of the
    /// points before it.
    pub fn record(&mut self, point: MetricPoint)
        ensures
            final(self)@ == old(self)@.push(point@),
    {
        self.points.push(point);
        assert(self.points.deep_view() =~= old(self).points.deep_view().push(point@));
    }

    /// Records a point of the given kind and value at the current time.
    fn record_now(&mut self, name: &str, kind: MetricKind, value: MetricValue)
        ensures
            exists|now: u64|
                final(self)@ == #[trigger] recorded(old(self)@, name@, kind, now, value),
    {
        let now = current_time_unix_nano();
        self.record(MetricPoint { name: name.to_string(), kind, time_unix_nano: now, value });
        assert(self@ == recorded(old(self)@, name@, kind, now, value));
    }

    /// Records a gauge with a 64-bit signed integer value at the current time.
    pub fn add_int64_gauge(&mut self, name: &str, value: i64)
        ensures
            exists|now: u64|
                final(self)@ == #[trigger] recorded(
                    old(self)@,
                    name@,
                    MetricKind::Gauge,
                    now,
                    MetricValue::Int(value),
                ),
    {
        self.record_now(name, MetricKind::Gauge, MetricValue::Int(value));
    }

    /// Records a gauge with a 64-bit float value at the current time. The
    /// float is given by its IEEE-754 bit pattern.
    pub fn add_double_gauge(&mut self, name: &str, value_bits: u64)
        ensures
            exists|now: u64|
                final(self)@ == #[trigger] recorded(
                    old(self)@,
                    name@,
                    MetricKind::Gauge,
                    now,
                    MetricValue::Double(value_bits),
                ),
    {
        self.record_now(name, MetricKind::Gauge, MetricValue::Double(value_bits));
    }

    /// Records a sum with a 64-bit signed integer value at the current time.
    pub fn add_int64_sum(&mut self, name: &str, value: i64)
        ensures
            exists|now: u64|
                final(self)@ == #[trigger] recorded(
                    old(self)@,
                    name@,
                    MetricKind::Sum,
                    now,
                    MetricValue::Int(value),
                ),
    {
        self.record_now(name, MetricKind::Sum, MetricValue::Int(value));
    }

    /// Records a sum with a 64-bit float value at the current time. The float
    /// is given by its IEEE-754 bit pattern.
    pub fn add_double_sum(&mut self, name: &str, value_bits: u64)
        ensures
            exists|now: u64|
                final(self)@ == #[trigger] recorded(
                    old(self)@,
                    name@,
                    MetricKind::Sum,
                    now,
                    MetricValue::Double(value_bits),
                ),
    {
        self.record_now(name, MetricKind::Sum, MetricValue::Double(value_bits));
    }

    /// Appends to `buf` the payload that carries the recorded points, and
    /// ends the builder.
    pub fn get_serialized(self, buf: &mut BytesMut)
        ensures
            buffer_bytes(*final(buf)) == buffer_bytes(*old(buf)) + metrics_payload(self@),
    {
        let data = metrics_data(&self.points);
        let bytes = encode_metrics(&data);
        buf.extend_from_slice(bytes.as_slice());
    }
}

} // verus!

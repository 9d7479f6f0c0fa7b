//! The metric envelope: `MetricsData` with one `ResourceMetrics`, which holds
//! one `ScopeMetrics`, which holds one `Metric` for each recorded point.
use crate::envelope::common::{
    build_resource, build_scope, double_value, resource_envelope, scope_envelope,
};
use crate::record::{MetricKind, MetricPoint, MetricPointView, MetricValue};
use crate::schema::metrics::{
    metric_message, metric_messages, metrics_data_message, metrics_encoding,
    number_data_point_message, number_data_point_messages, number_message,
    resource_metrics_message, DataMessage, MetricMessage, MetricsDataMessage,
    NumberDataPointMessage, NumberMessage, ResourceMetricsMessage, ScopeMetricsMessage,
};
use opentelemetry_proto::tonic::common::v1::any_value::Value;
use opentelemetry_proto::tonic::metrics::v1::metric::Data;
use opentelemetry_proto::tonic::metrics::v1::number_data_point;
use opentelemetry_proto::tonic::metrics::v1::{
    Gauge, Metric, MetricsData, NumberDataPoint, ResourceMetrics, ScopeMetrics, Sum,
};
use vstd::prelude::*;

verus! {

/// The one-of that stands for the value of a point: the variant of the same type.
pub open spec fn metric_value_message(value: MetricValue) -> NumberMessage {
    match value {
        MetricValue::Int(i) => NumberMessage::AsInt(i),
        MetricValue::Double(bits) => NumberMessage::AsDouble(bits),
    }
}

/// The data point of a metric point: its time and its value, and nothing else set.
pub open spec fn data_point_envelope(point: MetricPointView) -> NumberDataPointMessage {
    NumberDataPointMessage {
        attributes: Seq::empty(),
        start_time_unix_nano: 0,
        time_unix_nano: point.time_unix_nano,
        exemplars: Seq::empty(),
        flags: 0,
        value: Some(metric_value_message(point.value)),
    }
}

/// The `Metric` that stands for a metric point: its name, and a gauge or a
/// sum, by its kind, that holds the one data point of it.
pub open spec fn metric_envelope(point: MetricPointView) -> MetricMessage {
    MetricMessage {
        name: point.name,
        description: Seq::empty(),
        unit: Seq::empty(),
        metadata: Seq::empty(),
        data: Some(
            match point.kind {
                MetricKind::Gauge => DataMessage::Gauge {
                    data_points: seq![data_point_envelope(point)],
                },
                MetricKind::Sum => DataMessage::Sum {
                    data_points: seq![data_point_envelope(point)],
                    aggregation_temporality: 0,
                    is_monotonic: false,
                },
            },
        ),
    }
}

/// The `Metric`s that stand for a sequence of points, in the same order.
pub open spec fn metric_envelopes(points: Seq<MetricPointView>) -> Seq<MetricMessage> {
    Seq::new(points.len(), |i: int| metric_envelope(points[i]))
}

/// The `MetricsData` that carries `points`: the resource, the scope, and one
/// `Metric` for each point, in their order.
pub open spec fn metrics_envelope(points: Seq<MetricPointView>) -> MetricsDataMessage {
    MetricsDataMessage {
        resource_metrics: seq![
            ResourceMetricsMessage {
                resource: Some(resource_envelope()),
                scope_metrics: seq![
                    ScopeMetricsMessage {
                        scope: Some(scope_envelope()),
                        metrics: metric_envelopes(points),
                        schema_url: Seq::empty(),
                    },
                ],
                schema_url: Seq::empty(),
            },
        ],
    }
}

/// The payload that carries `points`: the encoding of their envelope.
pub open spec fn metrics_payload(points: Seq<MetricPointView>) -> Seq<u8> {
    metrics_encoding(metrics_envelope(points))
}

/// The data points that a `Metric` holds in its gauge or its sum.
pub open spec fn data_points_of(metric: MetricMessage) -> Seq<NumberDataPointMessage> {
    match metric.data {
        Some(DataMessage::Gauge { data_points }) => data_points,
        Some(DataMessage::Sum { data_points, .. }) => data_points,
        _ => Seq::empty(),
    }
}

/// The `Metric`s that the envelope of `points` carries.
pub open spec fn carried_metrics(points: Seq<MetricPointView>) -> Seq<MetricMessage> {
    metrics_envelope(points).resource_metrics[0].scope_metrics[0].metrics
}

/// The envelope carries one `Metric` for each point, in the order of the
/// points, with the name of its point and the one data point of it.
pub proof fn lemma_one_metric_per_point(points: Seq<MetricPointView>)
    ensures
        carried_metrics(points).len() == points.len(),
        forall|i: int|
            0 <= i < points.len() ==> {
                &&& (#[trigger] carried_metrics(points)[i]).name == points[i].name
                &&& data_points_of(carried_metrics(points)[i]) == seq![
                    data_point_envelope(points[i]),
                ]
            },
{
}

/// Two points of one name, recorded one after the other, are carried as two
/// `Metric`s of that name, each with its own data point: nothing is merged.
pub proof fn lemma_same_name_points_stay_apart(
    points: Seq<MetricPointView>,
    name: Seq<char>,
    kind: MetricKind,
    first_time: u64,
    first_value: MetricValue,
    second_time: u64,
    second_value: MetricValue,
)
    ensures
        ({
            let first = MetricPointView {
                name,
                kind,
                time_unix_nano: first_time,
                value: first_value,
            };
            let second = MetricPointView {
                name,
                kind,
                time_unix_nano: second_time,
                value: second_value,
            };
            let metrics = carried_metrics(points.push(first).push(second));
            let n = points.len() as int;
            &&& metrics.len() == n + 2
            &&& metrics[n].name == name
            &&& metrics[n + 1].name == name
            &&& data_points_of(metrics[n]) == seq![data_point_envelope(first)]
            &&& data_points_of(metrics[n + 1]) == seq![data_point_envelope(second)]
        }),
{
    let first = MetricPointView { name, kind, time_unix_nano: first_time, value: first_value };
    let second = MetricPointView { name, kind, time_unix_nano: second_time, value: second_value };
    lemma_one_metric_per_point(points.push(first).push(second));
}

/// The one-of variant of a data point that holds the double with the
/// IEEE-754 bit pattern `bits`.
fn double_number(bits: u64) -> (value: number_data_point::Value)
    ensures
        number_message(value) == NumberMessage::AsDouble(bits),
{
    match double_value(bits) {
        Value::DoubleValue(double) => number_data_point::Value::AsDouble(double),
        _ => unreached(),
    }
}

/// Builds the `Metric` that stands for `point`.
pub fn to_metric(point: &MetricPoint) -> (metric: Metric)
    ensures
        metric_message(metric) == metric_envelope(point@),
{
    let value = match point.value {
        MetricValue::Int(i) => number_data_point::Value::AsInt(i),
        MetricValue::Double(bits) => double_number(bits),
    };
    let data_point = NumberDataPoint {
        attributes: Vec::new(),
        start_time_unix_nano: 0,
        time_unix_nano: point.time_unix_nano,
        exemplars: Vec::new(),
        flags: 0,
        value: Some(value),
    };
    let mut data_points: Vec<NumberDataPoint> = Vec::new();
    data_points.push(data_point);
    let data = match point.kind {
        MetricKind::Gauge => Data::Gauge(Gauge { data_points }),
        MetricKind::Sum => Data::Sum(
            Sum { data_points, aggregation_temporality: 0, is_monotonic: false },
        ),
    };
    let metric = Metric {
        name: point.name.clone(),
        description: String::new(),
        unit: String::new(),
        metadata: Vec::new(),
        data: Some(data),
    };
    assert(metric_message(metric).metadata =~= Seq::empty());
    assert(number_data_point_message(data_point).attributes =~= Seq::empty());
    assert(number_data_point_messages(data_points@) =~= seq![data_point_envelope(point@)]);
    metric
}

/// Builds the `Metric`s that stand for `points`, in the same order.
pub fn to_metrics(points: &Vec<MetricPoint>) -> (metrics: Vec<Metric>)
    ensures
        metric_messages(metrics@) == metric_envelopes(points.deep_view()),
{
    let mut metrics: Vec<Metric> = Vec::new();
    let mut i: usize = 0;
    while i < points.len()
        invariant
            i <= points.len(),
            metrics@.len() == i,
            forall|j: int|
                0 <= j < i ==> metric_message(#[trigger] metrics@[j]) == metric_envelope(
                    points@[j]@,
                ),
        decreases points.len() - i,
    {
        metrics.push(to_metric(&points[i]));
        i += 1;
    }
    assert(metric_messages(metrics@) =~= metric_envelopes(points.deep_view()));
    metrics
}

/// Builds the `MetricsData` that carries `points`.
pub fn metrics_data(points: &Vec<MetricPoint>) -> (data: MetricsData)
    ensures
        metrics_data_message(data) == metrics_envelope(points.deep_view()),
{
    let scope_metrics = ScopeMetrics {
        scope: Some(build_scope()),
        metrics: to_metrics(points),
        schema_url: String::new(),
    };
    let mut all_scope_metrics: Vec<ScopeMetrics> = Vec::new();
    all_scope_metrics.push(scope_metrics);
    let resource_metrics = ResourceMetrics {
        resource: Some(build_resource()),
        scope_metrics: all_scope_metrics,
        schema_url: String::new(),
    };
    let mut all_resource_metrics: Vec<ResourceMetrics> = Vec::new();
    all_resource_metrics.push(resource_metrics);
    let data = MetricsData { resource_metrics: all_resource_metrics };
    assert(resource_metrics_message(data.resource_metrics@[0]).scope_metrics
        =~= metrics_envelope(points.deep_view()).resource_metrics[0].scope_metrics);
    assert(metrics_data_message(data).resource_metrics
        =~= metrics_envelope(points.deep_view()).resource_metrics);
    data
}

} // verus!

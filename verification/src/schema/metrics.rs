//! The metric messages: `MetricsData` and what it is made of.
use crate::schema::common::{
    key_value_messages, resource_message, scope_message, InstrumentationScopeMessage,
    KeyValueMessage, ResourceMessage,
};
use opentelemetry_proto::tonic::metrics::v1::metric::Data;
use opentelemetry_proto::tonic::metrics::v1::number_data_point;
use opentelemetry_proto::tonic::metrics::v1::{
    Exemplar, ExponentialHistogram, Gauge, Histogram, Metric, MetricsData, NumberDataPoint,
    ResourceMetrics, ScopeMetrics, Sum, Summary,
};
use prost::Message;
use vstd::float::FloatBitsProperties;
use vstd::prelude::*;

verus! {

#[verifier::external_type_specification]
#[verifier::external_body]
pub struct ExExemplar(opentelemetry_proto::tonic::metrics::v1::Exemplar);

#[verifier::external_type_specification]
#[verifier::external_body]
pub struct ExHistogram(opentelemetry_proto::tonic::metrics::v1::Histogram);

#[verifier::external_type_specification]
#[verifier::external_body]
pub struct ExExponentialHistogram(opentelemetry_proto::tonic::metrics::v1::ExponentialHistogram);

#[verifier::external_type_specification]
#[verifier::external_body]
pub struct ExSummary(opentelemetry_proto::tonic::metrics::v1::Summary);

#[verifier::external_type_specification]
pub struct ExNumberValue(opentelemetry_proto::tonic::metrics::v1::number_data_point::Value);

#[verifier::external_type_specification]
pub struct ExNumberDataPoint(opentelemetry_proto::tonic::metrics::v1::NumberDataPoint);

#[verifier::external_type_specification]
pub struct ExGauge(opentelemetry_proto::tonic::metrics::v1::Gauge);

#[verifier::external_type_specification]
pub struct ExSum(opentelemetry_proto::tonic::metrics::v1::Sum);

#[verifier::external_type_specification]
pub struct ExData(opentelemetry_proto::tonic::metrics::v1::metric::Data);

#[verifier::external_type_specification]
pub struct ExMetric(opentelemetry_proto::tonic::metrics::v1::Metric);

#[verifier::external_type_specification]
pub struct ExScopeMetrics(opentelemetry_proto::tonic::metrics::v1::ScopeMetrics);

#[verifier::external_type_specification]
pub struct ExResourceMetrics(opentelemetry_proto::tonic::metrics::v1::ResourceMetrics);

#[verifier::external_type_specification]
pub struct ExMetricsData(opentelemetry_proto::tonic::metrics::v1::MetricsData);

/// What the one-of inside a `NumberDataPoint` holds. A double stands by its IEEE-754 bits.
pub enum NumberMessage {
    AsDouble(u64),
    AsInt(i64),
}

/// What the one-of `value` holds.
pub open spec fn number_message(value: number_data_point::Value) -> NumberMessage {
    match value {
        number_data_point::Value::AsDouble(d) => NumberMessage::AsDouble(d.to_bits_spec()),
        number_data_point::Value::AsInt(i) => NumberMessage::AsInt(i),
    }
}

/// What a `NumberDataPoint` holds.
pub struct NumberDataPointMessage {
    pub attributes: Seq<KeyValueMessage>,
    pub start_time_unix_nano: u64,
    pub time_unix_nano: u64,
    pub exemplars: Seq<Exemplar>,
    pub flags: u32,
    pub value: Option<NumberMessage>,
}

/// What the `NumberDataPoint` `point` holds.
pub open spec fn number_data_point_message(point: NumberDataPoint) -> NumberDataPointMessage {
    NumberDataPointMessage {
        attributes: key_value_messages(point.attributes@),
        start_time_unix_nano: point.start_time_unix_nano,
        time_unix_nano: point.time_unix_nano,
        exemplars: point.exemplars@,
        flags: point.flags,
        value: match point.value {
            Some(value) => Some(number_message(value)),
            None => None,
        },
    }
}

/// What a sequence of `NumberDataPoint`s holds, item by item.
pub open spec fn number_data_point_messages(points: Seq<NumberDataPoint>) -> Seq<
    NumberDataPointMessage,
> {
    Seq::new(points.len(), |i: int| number_data_point_message(points[i]))
}

/// What the one-of inside a `Metric` holds.
pub enum DataMessage {
    Gauge { data_points: Seq<NumberDataPointMessage> },
    Sum {
        data_points: Seq<NumberDataPointMessage>,
        aggregation_temporality: i32,
        is_monotonic: bool,
    },
    Histogram(Histogram),
    ExponentialHistogram(ExponentialHistogram),
    Summary(Summary),
}

/// What the one-of `data` holds.
pub open spec fn data_message(data: Data) -> DataMessage {
    match data {
        Data::Gauge(gauge) => DataMessage::Gauge {
            data_points: number_data_point_messages(gauge.data_points@),
        },
        Data::Sum(sum) => DataMessage::Sum {
            data_points: number_data_point_messages(sum.data_points@),
            aggregation_temporality: sum.aggregation_temporality,
            is_monotonic: sum.is_monotonic,
        },
        Data::Histogram(h) => DataMessage::Histogram(h),
        Data::ExponentialHistogram(h) => DataMessage::ExponentialHistogram(h),
        Data::Summary(s) => DataMessage::Summary(s),
    }
}

/// What a `Metric` holds.
pub struct MetricMessage {
    pub name: Seq<char>,
    pub description: Seq<char>,
    pub unit: Seq<char>,
    pub metadata: Seq<KeyValueMessage>,
    pub data: Option<DataMessage>,
}

/// What the `Metric` `metric` holds.
pub open spec fn metric_message(metric: Metric) -> MetricMessage {
    MetricMessage {
        name: metric.name@,
        description: metric.description@,
        unit: metric.unit@,
        metadata: key_value_messages(metric.metadata@),
        data: match metric.data {
            Some(data) => Some(data_message(data)),
            None => None,
        },
    }
}

/// What a sequence of `Metric`s holds, item by item.
pub open spec fn metric_messages(metrics: Seq<Metric>) -> Seq<MetricMessage> {
    Seq::new(metrics.len(), |i: int| metric_message(metrics[i]))
}

/// What a `ScopeMetrics` holds.
pub struct ScopeMetricsMessage {
    pub scope: Option<InstrumentationScopeMessage>,
    pub metrics: Seq<MetricMessage>,
    pub schema_url: Seq<char>,
}

/// What the `ScopeMetrics` `scope_metrics` holds.
pub open spec fn scope_metrics_message(scope_metrics: ScopeMetrics) -> ScopeMetricsMessage {
    ScopeMetricsMessage {
        scope: match scope_metrics.scope {
            Some(scope) => Some(scope_message(scope)),
            None => None,
        },
        metrics: metric_messages(scope_metrics.metrics@),
        schema_url: scope_metrics.schema_url@,
    }
}

/// What a `ResourceMetrics` holds.
pub struct ResourceMetricsMessage {
    pub resource: Option<ResourceMessage>,
    pub scope_metrics: Seq<ScopeMetricsMessage>,
    pub schema_url: Seq<char>,
}

/// What the `ResourceMetrics` `resource_metrics` holds.
pub open spec fn resource_metrics_message(
    resource_metrics: ResourceMetrics,
) -> ResourceMetricsMessage {
    ResourceMetricsMessage {
        resource: match resource_metrics.resource {
            Some(resource) => Some(resource_message(resource)),
            None => None,
        },
        scope_metrics: Seq::new(
            resource_metrics.scope_metrics@.len(),
            |i: int| scope_metrics_message(resource_metrics.scope_metrics@[i]),
        ),
        schema_url: resource_metrics.schema_url@,
    }
}

/// What a `MetricsData` holds.
pub struct MetricsDataMessage {
    pub resource_metrics: Seq<ResourceMetricsMessage>,
}

/// What the `MetricsData` `data` holds.
pub open spec fn metrics_data_message(data: MetricsData) -> MetricsDataMessage {
    MetricsDataMessage {
        resource_metrics: Seq::new(
            data.resource_metrics@.len(),
            |i: int| resource_metrics_message(data.resource_metrics@[i]),
        ),
    }
}

/// The protobuf encoding of a `MetricsData` that holds `data`.
pub uninterp spec fn metrics_encoding(data: MetricsDataMessage) -> Seq<u8>;

/// Encodes `data` with prost's `Message::encode_to_vec`. The bytes are a
/// function of what the message holds, and nothing more is claimed of them.
#[verifier::external_body]
pub(crate) fn encode_metrics(data: &MetricsData) -> (bytes: Vec<u8>)
    ensures
        bytes@ == metrics_encoding(metrics_data_message(*data)),
{
    data.encode_to_vec()
}

} // verus!

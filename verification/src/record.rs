//! The records that the builders accumulate, as plain data, and their views.
use vstd::prelude::*;

verus! {

/// The value of an attribute: one of four variants, never coerced into another.
#[derive(Debug, Clone, PartialEq, Eq)]
pub enum AttributeValue {
    Text(String),
    Bool(bool),
    Int(i64),
    /// A 64-bit float, held as its IEEE-754 bit pattern.
    Double(u64),
}

/// What an [`AttributeValue`] holds.
pub enum AttributeValueView {
    Text(Seq<char>),
    Bool(bool),
    Int(i64),
    Double(u64),
}

impl View for AttributeValue {
    type V = AttributeValueView;

    open spec fn view(&self) -> AttributeValueView {
        match self {
            AttributeValue::Text(s) => AttributeValueView::Text(s@),
            AttributeValue::Bool(b) => AttributeValueView::Bool(*b),
            AttributeValue::Int(i) => AttributeValueView::Int(*i),
            AttributeValue::Double(bits) => AttributeValueView::Double(*bits),
        }
    }
}

impl DeepView for AttributeValue {
    type V = AttributeValueView;

    open spec fn deep_view(&self) -> AttributeValueView {
        self@
    }
}

/// A key with a typed value.
#[derive(Debug, Clone, PartialEq, Eq)]
pub struct Attribute {
    pub key: String,
    pub value: AttributeValue,
}

/// What an [`Attribute`] holds.
pub struct AttributeView {
    pub key: Seq<char>,
    pub value: AttributeValueView,
}

impl View for Attribute {
    type V = AttributeView;

    open spec fn view(&self) -> AttributeView {
        AttributeView { key: self.key@, value: self.value@ }
    }
}

impl DeepView for Attribute {
    type V = AttributeView;

    open spec fn deep_view(&self) -> AttributeView {
        self@
    }
}

/// A named, timed unit of work within a trace.
#[derive(Debug, Clone, PartialEq, Eq)]
pub struct SpanRecord {
    pub trace_id: Vec<u8>,
    pub span_id: Vec<u8>,
    /// Empty for a span entered while no other was open.
    pub parent_span_id: Vec<u8>,
    pub name: String,
    pub start_time_unix_nano: u64,
    pub end_time_unix_nano: u64,
    pub attributes: Vec<Attribute>,
}

/// What a [`SpanRecord`] holds.
pub struct SpanRecordView {
    pub trace_id: Seq<u8>,
    pub span_id: Seq<u8>,
    pub parent_span_id: Seq<u8>,
    pub name: Seq<char>,
    pub start_time_unix_nano: u64,
    pub end_time_unix_nano: u64,
    pub attributes: Seq<AttributeView>,
}

impl View for SpanRecord {
    type V = SpanRecordView;

    open spec fn view(&self) -> SpanRecordView {
        SpanRecordView {
            trace_id: self.trace_id@,
            span_id: self.span_id@,
            parent_span_id: self.parent_span_id@,
            name: self.name@,
            start_time_unix_nano: self.start_time_unix_nano,
            end_time_unix_nano: self.end_time_unix_nano,
            attributes: self.attributes.deep_view(),
        }
    }
}

impl DeepView for SpanRecord {
    type V = SpanRecordView;

    open spec fn deep_view(&self) -> SpanRecordView {
        self@
    }
}

/// The two kinds of metric: an instantaneous value, or an accumulating total.
#[derive(Debug, Clone, Copy, PartialEq, Eq)]
pub enum MetricKind {
    Gauge,
    Sum,
}

/// The value of a metric point.
#[derive(Debug, Clone, Copy, PartialEq, Eq)]
pub enum MetricValue {
    Int(i64),
    /// A 64-bit float, held as its IEEE-754 bit pattern.
    Double(u64),
}

/// One recorded metric point. Points are independent: two of one name are two entries.
#[derive(Debug, Clone, PartialEq, Eq)]
pub struct MetricPoint {
    pub name: String,
    pub kind: MetricKind,
    pub time_unix_nano: u64,
    pub value: MetricValue,
}

/// What a [`MetricPoint`] holds.
pub struct MetricPointView {
    pub name: Seq<char>,
    pub kind: MetricKind,
    pub time_unix_nano: u64,
    pub value: MetricValue,
}

impl View for MetricPoint {
    type V = MetricPointView;

    open spec fn view(&self) -> MetricPointView {
        MetricPointView {
            name: self.name@,
            kind: self.kind,
            time_unix_nano: self.time_unix_nano,
            value: self.value,
        }
    }
}

impl DeepView for MetricPoint {
    type V = MetricPointView;

    open spec fn deep_view(&self) -> MetricPointView {
        self@
    }
}

/// The severity levels that a log record can have.
#[derive(Debug, Clone, Copy, PartialEq, Eq)]
pub enum Severity {
    Info,
    Warning,
    Error,
    Fatal,
}

impl Severity {
    /// The number that the OTLP `SeverityNumber` enumeration gives this level.
    pub open spec fn spec_number(self) -> i32 {
        match self {
            Severity::Info => 9i32,
            Severity::Warning => 13i32,
            Severity::Error => 17i32,
            Severity::Fatal => 21i32,
        }
    }

    /// The number that the OTLP `SeverityNumber` enumeration gives this level.
    #[verifier::when_used_as_spec(spec_number)]
    pub fn number(self) -> (n: i32)
        ensures
            n == self.spec_number(),
    {
        match self {
            Severity::Info => 9,
            Severity::Warning => 13,
            Severity::Error => 17,
            Severity::Fatal => 21,
        }
    }
}

/// One log record.
#[derive(Debug, Clone, PartialEq, Eq)]
pub struct LogEntry {
    /// When the event happened, as the caller gave it.
    pub time_unix_nano: u64,
    /// When the record was taken.
    pub observed_time_unix_nano: u64,
    pub severity: Severity,
    pub body: String,
}

/// What a [`LogEntry`] holds.
pub struct LogEntryView {
    pub time_unix_nano: u64,
    pub observed_time_unix_nano: u64,
    pub severity: Severity,
    pub body: Seq<char>,
}

impl View for LogEntry {
    type V = LogEntryView;

    open spec fn view(&self) -> LogEntryView {
        LogEntryView {
            time_unix_nano: self.time_unix_nano,
            observed_time_unix_nano: self.observed_time_unix_nano,
            severity: self.severity,
            body: self.body@,
        }
    }
}

impl DeepView for LogEntry {
    type V = LogEntryView;

    open spec fn deep_view(&self) -> LogEntryView {
        self@
    }
}

} // verus!

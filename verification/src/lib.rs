//! Builders for telemetry signals (trace spans, metric points, log records)
//! and their encoding as OTLP protobuf payloads.
//!
//! Each builder accumulates plain records. Serializing one wraps its records
//! in the OTLP envelope, together with the fixed resource identity and the
//! instrumentation scope, and encodes the envelope with `prost`.
pub mod boundary;
pub mod buffer;
pub mod clock;
pub mod envelope;
pub mod header;
pub mod logs;
pub mod metrics;
pub mod nesting;
pub mod random;
pub mod record;
pub mod schema;
pub mod trace;

pub use logs::Logs;
pub use metrics::Metrics;
pub use trace::Traces;

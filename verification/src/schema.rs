//! The OTLP messages that the builders encode, as the `opentelemetry_proto`
//! crate defines them, and what each of them holds.
//!
//! The message types are the generated structs of that crate. They are
//! declared here so that verified code can build them field by field. Beside
//! each stands a specification type that holds the same fields as sequences
//! and plain values: what the message is, whatever the capacity of its
//! vectors. The encodings are stated over these.
pub mod common;
pub mod logs;
pub mod metrics;
pub mod trace;

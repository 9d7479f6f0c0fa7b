//! From accumulated records to the OTLP envelope: which message each builder
//! encodes, and the verified code that builds it.
pub mod common;
pub mod logs;
pub mod metrics;
pub mod trace;

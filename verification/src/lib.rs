//! Verified core of a small instrumented HTTP service.
//!
//! The library builds and coordinates three telemetry export pipelines
//! (traces, metrics, logs) that share one process identity, models the
//! records each pipeline buffers, and drives the request handler and the
//! shutdown path. The HTTP server, the runtime and the process signal
//! handling live outside the library and call into it with plain values.

pub mod config;
pub mod coordinator;
pub mod error;
pub mod identity;
pub mod laws;
pub mod log_pipeline;
pub mod metric_pipeline;
pub mod otel;
pub mod record;
pub mod service;
pub mod span_pipeline;

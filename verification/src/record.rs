//! The records the pipelines buffer: finished spans and log records.

use vstd::prelude::*;
use crate::identity::ResourceIdentity;

verus! {

/// The status a span carries when it is closed.
#[derive(Clone, Copy, PartialEq, Eq, Structural, Debug)]
pub enum SpanStatus {
    Unset,
    Okay,
    Error,
}

/// The severity of a log record.
#[derive(Clone, Copy, PartialEq, Eq, Structural, Debug)]
pub enum LogLevel {
    Debug,
    Info,
    Warn,
    Error,
}

/// A finished, named unit of traced work: its attributes, its status and
/// its start and end on the service's logical clock, stamped with the
/// emitting process's resource identity.
pub struct SpanRecord {
    pub name: String,
    pub attributes: Vec<(String, String)>,
    pub status: SpanStatus,
    pub start_tick: u64,
    pub end_tick: u64,
    pub resource: ResourceIdentity,
}

/// A structured log record: severity, message and fields, stamped with
/// the emitting process's resource identity.
pub struct LogRecord {
    pub tick: u64,
    pub level: LogLevel,
    pub message: String,
    pub fields: Vec<(String, String)>,
    pub resource: ResourceIdentity,
}

} // verus!

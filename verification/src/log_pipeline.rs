//! The log-signal export pipeline.

use vstd::prelude::*;
use crate::config::{signal_url, Signal};
use crate::error::{BuildError, ShutdownError};
use crate::identity::ResourceIdentity;
use crate::otel;
use crate::record::{LogLevel, LogRecord};

verus! {

/// Owns the log exporter and models what was handed to it: the records
/// still buffered and the records flushed out on shutdown, every one
/// stamped with the pipeline's resource identity.
pub struct LogPipeline {
    pub resource: ResourceIdentity,
    pub buffered: Vec<LogRecord>,
    pub exported: Vec<LogRecord>,
    pub down: bool,
    pub provider: opentelemetry_sdk::logs::SdkLoggerProvider,
}

impl LogPipeline {
    /// Every record the pipeline holds carries the pipeline's identity.
    pub open spec fn wf(self) -> bool {
        &&& forall|i: int|
            0 <= i < self.buffered@.len() ==> (#[trigger] self.buffered@[i]).resource@
                == self.resource@
        &&& forall|i: int|
            0 <= i < self.exported@.len() ==> (#[trigger] self.exported@[i]).resource@
                == self.resource@
    }

    /// Construct the pipeline: an exporter targeting the base URL with the
    /// log suffix, wrapped in a batching processor, with the given identity
    /// as the resource of every record. Fails only if the exporter cannot
    /// be constructed.
    pub fn build(endpoint_base: &str, identity: ResourceIdentity) -> (r: Result<
        LogPipeline,
        BuildError,
    >)
        ensures
            r matches Ok(p) ==> p.wf() && p.resource@ == identity@ && p.buffered@.len() == 0
                && p.exported@.len() == 0 && !p.down,
            r matches Err(e) ==> e.signal == Signal::Logs,
    {
        let url = signal_url(endpoint_base, Signal::Logs);
        let attrs = identity.resource_pairs();
        match otel::build_logger_provider(url.as_str(), identity.service_name.as_str(), &attrs) {
            Ok(provider) => Ok(
                LogPipeline {
                    resource: identity,
                    buffered: Vec::new(),
                    exported: Vec::new(),
                    down: false,
                    provider,
                },
            ),
            Err(_) => Err(BuildError { signal: Signal::Logs }),
        }
    }

    /// The emission hook: one structured record enters the batch buffer
    /// stamped with the pipeline's identity, and the same record is handed
    /// to the exporter's batching processor.
    pub fn emit(&mut self, tick: u64, level: LogLevel, message: String, fields: Vec<(String, String)>)
        requires
            !old(self).down,
        ensures
            final(self).buffered@.len() == old(self).buffered@.len() + 1,
            forall|i: int|
                0 <= i < old(self).buffered@.len() ==> final(self).buffered@[i] == old(
                    self,
                ).buffered@[i],
            ({
                let r = final(self).buffered@.last();
                &&& r.tick == tick
                &&& r.level == level
                &&& r.message == message
                &&& r.fields == fields
                &&& r.resource@ == old(self).resource@
            }),
            final(self).resource == old(self).resource,
            final(self).exported == old(self).exported,
            final(self).down == old(self).down,
    {
        otel::emit_log(
            &self.provider,
            self.resource.service_name.as_str(),
            level,
            message.as_str(),
            &fields,
        );
        let stamp = self.resource.replica();
        self.buffered.push(LogRecord { tick, level, message, fields, resource: stamp });
    }

    /// Flush all buffered records and release the exporter: every record
    /// buffered before the call is exported, none is lost, and the
    /// pipeline is down afterwards, whatever the exporter reported.
    pub fn shutdown(&mut self) -> (r: Result<(), ShutdownError>)
        requires
            !old(self).down,
        ensures
            final(self).down,
            final(self).buffered@.len() == 0,
            final(self).exported@ == old(self).exported@ + old(self).buffered@,
            final(self).resource == old(self).resource,
            r matches Err(e) ==> e.signal == Signal::Logs,
    {
        let outcome = otel::shutdown_logger_provider(&self.provider);
        self.exported.append(&mut self.buffered);
        self.down = true;
        match outcome {
            Ok(_) => Ok(()),
            Err(_) => Err(ShutdownError { signal: Signal::Logs }),
        }
    }
}

} // verus!

//! The trace-signal export pipeline.

use vstd::prelude::*;
use crate::config::{signal_url, Signal};
use crate::error::{BuildError, ShutdownError};
use crate::identity::ResourceIdentity;
use crate::otel;
use crate::record::{SpanRecord, SpanStatus};

verus! {

/// Owns the trace exporter and models what was handed to it: the records
/// still buffered and the records flushed out on shutdown, every one
/// stamped with the pipeline's resource identity.
pub struct SpanPipeline {
    pub resource: ResourceIdentity,
    pub buffered: Vec<SpanRecord>,
    pub exported: Vec<SpanRecord>,
    pub down: bool,
    pub provider: opentelemetry_sdk::trace::SdkTracerProvider,
}

impl SpanPipeline {
    /// Every record the pipeline holds carries the pipeline's identity.
    pub open spec fn wf(self) -> bool {
        &&& forall|i: int|
            0 <= i < self.buffered@.len() ==> (#[trigger] self.buffered@[i]).resource@
                == self.resource@
        &&& forall|i: int|
            0 <= i < self.exported@.len() ==> (#[trigger] self.exported@[i]).resource@
                == self.resource@
    }

    /// Construct the pipeline: an exporter targeting the base URL with the
    /// trace suffix, wrapped in a batching processor, with the given
    /// identity as the resource of every span. Fails only if the exporter
    /// cannot be constructed.
    pub fn build(endpoint_base: &str, identity: ResourceIdentity) -> (r: Result<
        SpanPipeline,
        BuildError,
    >)
        ensures
            r matches Ok(p) ==> p.wf() && p.resource@ == identity@ && p.buffered@.len() == 0
                && p.exported@.len() == 0 && !p.down,
            r matches Err(e) ==> e.signal == Signal::Traces,
    {
        let url = signal_url(endpoint_base, Signal::Traces);
        let attrs = identity.resource_pairs();
        match otel::build_span_provider(url.as_str(), identity.service_name.as_str(), &attrs) {
            Ok(provider) => Ok(
                SpanPipeline {
                    resource: identity,
                    buffered: Vec::new(),
                    exported: Vec::new(),
                    down: false,
                    provider,
                },
            ),
            Err(_) => Err(BuildError { signal: Signal::Traces }),
        }
    }

    /// Close one span into the pipeline's batch buffer: the record enters
    /// the buffer stamped with the pipeline's identity, and the same span
    /// is handed to the exporter's batching processor.
    pub fn record(
        &mut self,
        name: String,
        attributes: Vec<(String, String)>,
        status: SpanStatus,
        start_tick: u64,
        end_tick: u64,
    )
        requires
            !old(self).down,
        ensures
            final(self).buffered@.len() == old(self).buffered@.len() + 1,
            forall|i: int|
                0 <= i < old(self).buffered@.len() ==> final(self).buffered@[i] == old(
                    self,
                ).buffered@[i],
            ({
                let r = final(self).buffered@.last();
                &&& r.name == name
                &&& r.attributes == attributes
                &&& r.status == status
                &&& r.start_tick == start_tick
                &&& r.end_tick == end_tick
                &&& r.resource@ == old(self).resource@
            }),
            final(self).resource == old(self).resource,
            final(self).exported == old(self).exported,
            final(self).down == old(self).down,
    {
        otel::emit_span(
            &self.provider,
            self.resource.service_name.as_str(),
            name.as_str(),
            &attributes,
            status,
        );
        let stamp = self.resource.replica();
        self.buffered.push(
            SpanRecord { name, attributes, status, start_tick, end_tick, resource: stamp },
        );
    }

    /// Flush all buffered spans and release the exporter: every record
    /// buffered before the call is exported, none is lost, and the
    /// pipeline is down afterwards, whatever the exporter reported.
    pub fn shutdown(&mut self) -> (r: Result<(), ShutdownError>)
        requires
            !old(self).down,
        ensures
            final(self).down,
            final(self).buffered@.len() == 0,
            final(self).exported@ == old(self).exported@ + old(self).buffered@,
            final(self).resource == old(self).resource,
            r matches Err(e) ==> e.signal == Signal::Traces,
    {
        let outcome = otel::shutdown_tracer_provider(&self.provider);
        self.exported.append(&mut self.buffered);
        self.down = true;
        match outcome {
            Ok(_) => Ok(()),
            Err(_) => Err(ShutdownError { signal: Signal::Traces }),
        }
    }
}

} // verus!

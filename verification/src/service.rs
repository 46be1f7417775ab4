//! The service core: one shared identity, three pipelines, the request
//! counter and the instrumented request handler.

use vstd::prelude::*;
use crate::error::{BuildError, ShutdownError};
use crate::config::Signal;
use crate::identity::ResourceIdentity;
use crate::log_pipeline::LogPipeline;
use crate::metric_pipeline::MetricPipeline;
use crate::record::{LogLevel, SpanRecord, SpanStatus};
use crate::span_pipeline::SpanPipeline;

verus! {

/// The fixed response body of the instrumented route.
pub open spec fn hello_message() -> Seq<char> {
    "Hello from Rust!"@
}

/// What every span of the instrumented route looks like: named for the
/// route, method and route attributes set, closed with a success status.
pub open spec fn span_conforms(r: SpanRecord) -> bool {
    &&& r.name@ == "GET /hello"@
    &&& r.status == SpanStatus::Okay
    &&& r.attributes@.len() == 2
    &&& r.attributes@[0].0@ == "http.method"@
    &&& r.attributes@[0].1@ == "GET"@
    &&& r.attributes@[1].0@ == "http.route"@
    &&& r.attributes@[1].1@ == "/hello"@
}

/// The result of the shutdown path: one outcome per pipeline, in the
/// fixed order in which the pipelines were shut down.
pub struct ShutdownOutcome {
    pub traces: Result<(), ShutdownError>,
    pub metrics: Result<(), ShutdownError>,
    pub logs: Result<(), ShutdownError>,
}

/// The whole service state: the shared process identity, the three
/// pipelines built from it, the handle of the request-counter series,
/// the process-wide request counter and a logical clock.
pub struct Service {
    pub identity: ResourceIdentity,
    pub spans: SpanPipeline,
    pub metrics: MetricPipeline,
    pub logs: LogPipeline,
    pub hello_series: usize,
    pub request_count: u64,
    pub tick: u64,
}

impl Service {
    /// The invariant the constructor establishes and every operation
    /// preserves: the three pipelines carry the one shared identity and
    /// stamp it on every record; every span of the route conforms; the
    /// request-counter series exists, its cumulative value equals the
    /// request counter, and the logged contributions observed exactly the
    /// counter values 1, 2, 3, ... in order.
    pub open spec fn wf(self) -> bool {
        &&& self.spans.wf()
        &&& self.metrics.wf()
        &&& self.logs.wf()
        &&& self.spans.resource@ == self.identity@
        &&& self.metrics.resource@ == self.identity@
        &&& self.logs.resource@ == self.identity@
        &&& forall|i: int|
            0 <= i < self.spans.buffered@.len() ==> span_conforms(
                #[trigger] self.spans.buffered@[i],
            )
        &&& forall|i: int|
            0 <= i < self.spans.exported@.len() ==> span_conforms(
                #[trigger] self.spans.exported@[i],
            )
        &&& self.hello_series < self.metrics.series@.len()
        &&& self.metrics.series@[self.hello_series as int].label@ == "/hello"@
        &&& self.metrics.instruments@[self.metrics.series@[self.hello_series as int].instrument as int].name@
            == "hello.requests"@
        &&& self.metrics.series@[self.hello_series as int].total == self.request_count
        &&& self.metrics.observations@.len() == self.request_count
        &&& forall|i: int|
            0 <= i < self.metrics.observations@.len() ==> #[trigger] self.metrics.observations@[i]
                == (self.hello_series, (i + 1) as u64)
    }

    /// Build the whole service: one identity (the given service name and
    /// the fixed language tag) is shared by the trace, metric and log
    /// pipelines, and the request-counter instrument and its route series
    /// are created once, ready for the handler to reuse. Fails if and
    /// only if one of the three exporters cannot be constructed; the
    /// error names the first signal that failed.
    pub fn build(endpoint_base: &str, service_name: String) -> (r: Result<Service, BuildError>)
        ensures
            r matches Ok(sv) ==> {
                &&& sv.wf()
                &&& sv.identity@.service == service_name@
                &&& sv.identity@.language == "rust"@
                &&& sv.identity@.extras.len() == 0
                &&& sv.request_count == 0
                &&& sv.tick == 0
                &&& sv.spans.buffered@.len() == 0
                &&& sv.spans.exported@.len() == 0
                &&& sv.logs.buffered@.len() == 0
                &&& sv.logs.exported@.len() == 0
                &&& sv.metrics.observations@.len() == 0
                &&& sv.metrics.instruments@.len() == 1
                &&& sv.metrics.series@.len() == 1
                &&& !sv.spans.down
                &&& !sv.metrics.down
                &&& !sv.logs.down
            },
    {
        let identity = ResourceIdentity::new(service_name, "rust".to_owned(), Vec::new());
        let spans = match SpanPipeline::build(endpoint_base, identity.replica()) {
            Ok(p) => p,
            Err(e) => {
                return Err(e);
            },
        };
        let mut metrics = match MetricPipeline::build(endpoint_base, identity.replica()) {
            Ok(p) => p,
            Err(e) => {
                return Err(e);
            },
        };
        let logs = match LogPipeline::build(endpoint_base, identity.replica()) {
            Ok(p) => p,
            Err(e) => {
                return Err(e);
            },
        };
        let h = metrics.counter("hello.requests".to_owned());
        let s = metrics.counter_series(h, "/hello".to_owned());
        Ok(
            Service {
                identity,
                spans,
                metrics,
                logs,
                hello_series: s,
                request_count: 0,
                tick: 0,
            },
        )
    }

    /// The instrumented route. In one strictly ordered scope: open a span
    /// named for the route with method and route attributes, atomically
    /// take the next request count, contribute one to the request-counter
    /// series (the contribution observing the new count), emit one log
    /// record noting the route was called, close the span with a success
    /// status, and return the fixed payload. It cannot fail.
    pub fn handle_hello(&mut self) -> (r: String)
        requires
            old(self).wf(),
            !old(self).spans.down,
            !old(self).metrics.down,
            !old(self).logs.down,
            old(self).request_count < u64::MAX,
            old(self).tick + 2 <= u64::MAX,
        ensures
            r@ == hello_message(),
            final(self).wf(),
            final(self).request_count == old(self).request_count + 1,
            final(self).identity == old(self).identity,
            final(self).hello_series == old(self).hello_series,
            final(self).tick == old(self).tick + 2,
            !final(self).spans.down && !final(self).metrics.down && !final(self).logs.down,
            final(self).spans.buffered@.len() == old(self).spans.buffered@.len() + 1,
            forall|i: int|
                0 <= i < old(self).spans.buffered@.len() ==> final(self).spans.buffered@[i] == old(
                    self,
                ).spans.buffered@[i],
            span_conforms(final(self).spans.buffered@.last()),
            final(self).spans.buffered@.last().start_tick == old(self).tick,
            final(self).spans.buffered@.last().end_tick == old(self).tick + 1,
            final(self).spans.exported == old(self).spans.exported,
            final(self).metrics.series@[old(self).hello_series as int].total == old(
                self,
            ).metrics.series@[old(self).hello_series as int].total + 1,
            final(self).metrics.observations@ == old(self).metrics.observations@.push(
                (old(self).hello_series, (old(self).request_count + 1) as u64),
            ),
            final(self).metrics.instruments == old(self).metrics.instruments,
            final(self).metrics.series@.len() == old(self).metrics.series@.len(),
            forall|i: int|
                0 <= i < old(self).metrics.series@.len() && i != old(self).hello_series
                    ==> final(self).metrics.series@[i] == old(self).metrics.series@[i],
            final(self).spans.resource == old(self).spans.resource,
            final(self).metrics.resource == old(self).metrics.resource,
            final(self).logs.resource == old(self).logs.resource,
            final(self).logs.buffered@.len() == old(self).logs.buffered@.len() + 1,
            forall|i: int|
                0 <= i < old(self).logs.buffered@.len() ==> final(self).logs.buffered@[i] == old(
                    self,
                ).logs.buffered@[i],
            ({
                let lr = final(self).logs.buffered@.last();
                &&& lr.tick == old(self).tick
                &&& lr.level == LogLevel::Info
                &&& lr.message@ == "Hello endpoint called"@
                &&& lr.fields@.len() == 1
                &&& lr.fields@[0].0@ == "endpoint"@
                &&& lr.fields@[0].1@ == "/hello"@
            }),
            final(self).logs.exported == old(self).logs.exported,
    {
        let start = self.tick;
        let mut attrs: Vec<(String, String)> = Vec::new();
        attrs.push(("http.method".to_owned(), "GET".to_owned()));
        attrs.push(("http.route".to_owned(), "/hello".to_owned()));
        self.request_count = self.request_count + 1;
        let observed = self.request_count;
        let hs = self.hello_series;
        self.metrics.add(hs, 1, observed);
        let mut fields: Vec<(String, String)> = Vec::new();
        fields.push(("endpoint".to_owned(), "/hello".to_owned()));
        self.logs.emit(start, LogLevel::Info, "Hello endpoint called".to_owned(), fields);
        self.spans.record("GET /hello".to_owned(), attrs, SpanStatus::Okay, start, start + 1);
        self.tick = start + 2;
        "Hello from Rust!".to_owned()
    }

    /// The drain step of the shutdown path: shut down the trace pipeline,
    /// then the metric pipeline, then the log pipeline, in that fixed
    /// order. A failure of an earlier pipeline never prevents the later
    /// shutdowns: afterwards all three are down whatever the outcomes
    /// say, every buffered span and log record is exported, and the
    /// accumulated metric state is kept whole.
    pub fn shutdown(&mut self) -> (r: ShutdownOutcome)
        requires
            old(self).wf(),
            !old(self).spans.down,
            !old(self).metrics.down,
            !old(self).logs.down,
        ensures
            final(self).wf(),
            final(self).spans.down,
            final(self).metrics.down,
            final(self).logs.down,
            final(self).spans.buffered@.len() == 0,
            final(self).spans.exported@ == old(self).spans.exported@ + old(self).spans.buffered@,
            final(self).logs.buffered@.len() == 0,
            final(self).logs.exported@ == old(self).logs.exported@ + old(self).logs.buffered@,
            final(self).metrics.series == old(self).metrics.series,
            final(self).metrics.observations == old(self).metrics.observations,
            final(self).metrics.instruments == old(self).metrics.instruments,
            final(self).request_count == old(self).request_count,
            final(self).identity == old(self).identity,
            final(self).hello_series == old(self).hello_series,
            r.traces matches Err(e) ==> e.signal == Signal::Traces,
            r.metrics matches Err(e) ==> e.signal == Signal::Metrics,
            r.logs matches Err(e) ==> e.signal == Signal::Logs,
    {
        let traces_outcome = self.spans.shutdown();
        let metrics_outcome = self.metrics.shutdown();
        let logs_outcome = self.logs.shutdown();
        ShutdownOutcome { traces: traces_outcome, metrics: metrics_outcome, logs: logs_outcome }
    }
}

} // verus!

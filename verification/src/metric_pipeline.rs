//! The metric-signal export pipeline.
//!
//! Export is driven by the exporter's periodic reader, not by the request
//! path: the pipeline accumulates instrument state, and the reader pushes
//! the current state to the collector every fixed interval. The model
//! therefore keeps cumulative per-series totals rather than a batch
//! buffer, plus the log of every contribution handed to an instrument.

use vstd::prelude::*;
use vstd::pervasive::VecAdditionalExecFns;
use crate::config::{signal_url, Signal};
use crate::error::{BuildError, ShutdownError};
use crate::identity::ResourceIdentity;
use crate::otel;

verus! {

/// The fixed collection interval of the periodic reader, in seconds.
pub const METRIC_INTERVAL_SECS: u64 = 5;

/// A named monotonic counter instrument, created once per distinct name
/// and reused thereafter, together with the exporter's handle to it.
pub struct CounterInstrument {
    pub name: String,
    pub handle: opentelemetry::metrics::Counter<u64>,
}

/// One time series of a counter instrument: one endpoint label and the
/// cumulative value contributed under that label. Reads never reset it.
#[derive(Clone, PartialEq, Eq, Debug)]
pub struct CounterSeries {
    pub instrument: usize,
    pub label: String,
    pub total: u64,
}

/// Owns the metric exporter and models the instrument state it reads:
/// the instruments, their time series, and the log of every contribution
/// (series handle and the request count observed by that contribution).
pub struct MetricPipeline {
    pub resource: ResourceIdentity,
    pub instruments: Vec<CounterInstrument>,
    pub series: Vec<CounterSeries>,
    pub observations: Vec<(usize, u64)>,
    pub down: bool,
    pub provider: opentelemetry_sdk::metrics::SdkMeterProvider,
}

impl MetricPipeline {
    /// Every series points at an existing instrument.
    pub open spec fn wf(self) -> bool {
        forall|i: int|
            0 <= i < self.series@.len() ==> (#[trigger] self.series@[i]).instrument
                < self.instruments@.len()
    }

    /// Construct the pipeline: an exporter targeting the base URL with the
    /// metric suffix, wrapped in a periodic reader with a fixed collection
    /// interval, with the given identity as the resource. Fails only if
    /// the exporter cannot be constructed.
    pub fn build(endpoint_base: &str, identity: ResourceIdentity) -> (r: Result<
        MetricPipeline,
        BuildError,
    >)
        ensures
            r matches Ok(p) ==> p.wf() && p.resource@ == identity@ && p.instruments@.len() == 0
                && p.series@.len() == 0 && p.observations@.len() == 0 && !p.down,
            r matches Err(e) ==> e.signal == Signal::Metrics,
    {
        let url = signal_url(endpoint_base, Signal::Metrics);
        let attrs = identity.resource_pairs();
        match otel::build_meter_provider(
            url.as_str(),
            identity.service_name.as_str(),
            &attrs,
            METRIC_INTERVAL_SECS,
        ) {
            Ok(provider) => Ok(
                MetricPipeline {
                    resource: identity,
                    instruments: Vec::new(),
                    series: Vec::new(),
                    observations: Vec::new(),
                    down: false,
                    provider,
                },
            ),
            Err(_) => Err(BuildError { signal: Signal::Metrics }),
        }
    }

    /// Create a named monotonic counter instrument once; the returned
    /// handle is meant to be kept and reused, so that one logical time
    /// series exists per name.
    pub fn counter(&mut self, name: String) -> (h: usize)
        requires
            !old(self).down,
        ensures
            h == old(self).instruments@.len(),
            final(self).instruments@.len() == old(self).instruments@.len() + 1,
            forall|i: int|
                0 <= i < old(self).instruments@.len() ==> final(self).instruments@[i] == old(
                    self,
                ).instruments@[i],
            final(self).instruments@.last().name == name,
            final(self).series == old(self).series,
            final(self).observations == old(self).observations,
            final(self).resource == old(self).resource,
            final(self).down == old(self).down,
            old(self).wf() ==> final(self).wf(),
    {
        let handle = otel::make_counter(
            &self.provider,
            self.resource.service_name.as_str(),
            name.as_str(),
        );
        let h = self.instruments.len();
        self.instruments.push(CounterInstrument { name, handle });
        h
    }

    /// Open one time series of an instrument under an endpoint label;
    /// distinct labels of one instrument are distinct time series.
    pub fn counter_series(&mut self, h: usize, label: String) -> (s: usize)
        requires
            !old(self).down,
            h < old(self).instruments@.len(),
        ensures
            s == old(self).series@.len(),
            final(self).series@.len() == old(self).series@.len() + 1,
            forall|i: int|
                0 <= i < old(self).series@.len() ==> final(self).series@[i] == old(
                    self,
                ).series@[i],
            final(self).series@.last() == (CounterSeries { instrument: h, label, total: 0u64 }),
            final(self).instruments == old(self).instruments,
            final(self).observations == old(self).observations,
            final(self).resource == old(self).resource,
            final(self).down == old(self).down,
            old(self).wf() ==> final(self).wf(),
    {
        let s = self.series.len();
        self.series.push(CounterSeries { instrument: h, label, total: 0 });
        s
    }

    /// Contribute `amount` to one series, tagged with the series' endpoint
    /// label, and log the request count this contribution observed. The
    /// same contribution is handed to the exporter's instrument.
    pub fn add(&mut self, s: usize, amount: u64, observed: u64)
        requires
            !old(self).down,
            old(self).wf(),
            s < old(self).series@.len(),
            old(self).series@[s as int].total + amount <= u64::MAX,
        ensures
            final(self).series@.len() == old(self).series@.len(),
            forall|i: int|
                0 <= i < old(self).series@.len() && i != s ==> final(self).series@[i] == old(
                    self,
                ).series@[i],
            final(self).series@[s as int].instrument == old(self).series@[s as int].instrument,
            final(self).series@[s as int].label == old(self).series@[s as int].label,
            final(self).series@[s as int].total == old(self).series@[s as int].total + amount,
            final(self).observations@ == old(self).observations@.push((s, observed)),
            final(self).instruments == old(self).instruments,
            final(self).resource == old(self).resource,
            final(self).down == old(self).down,
            final(self).wf(),
    {
        let h = self.series[s].instrument;
        let label = self.series[s].label.clone();
        let total = self.series[s].total;
        let mut attrs: Vec<(String, String)> = Vec::new();
        attrs.push(("endpoint".to_owned(), label.clone()));
        otel::counter_add(&self.instruments[h].handle, amount, &attrs);
        self.series.set(s, CounterSeries { instrument: h, label, total: total + amount });
        self.observations.push((s, observed));
    }

    /// Stop the periodic reader after one final collection pass and
    /// release the exporter: the accumulated instrument state is kept
    /// whole, and the pipeline is down afterwards, whatever the exporter
    /// reported.
    pub fn shutdown(&mut self) -> (r: Result<(), ShutdownError>)
        requires
            !old(self).down,
        ensures
            final(self).down,
            final(self).instruments == old(self).instruments,
            final(self).series == old(self).series,
            final(self).observations == old(self).observations,
            final(self).resource == old(self).resource,
            r matches Err(e) ==> e.signal == Signal::Metrics,
    {
        let outcome = otel::shutdown_meter_provider(&self.provider);
        self.down = true;
        match outcome {
            Ok(_) => Ok(()),
            Err(_) => Err(ShutdownError { signal: Signal::Metrics }),
        }
    }
}

} // verus!

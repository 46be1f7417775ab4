//! The trusted boundary to the OpenTelemetry crates.
//!
//! Everything the library needs from `opentelemetry`, `opentelemetry_sdk`
//! and `opentelemetry-otlp` is declared or wrapped here: provider
//! construction, signal emission and provider shutdown. The wrappers take
//! plain string pairs and numbers, fixed by their verified callers, and
//! only convert them one for one into the crates' own types; the wrapped
//! results are opaque to verification, so the pipelines keep their own
//! verified model of what was handed over.

use vstd::prelude::*;
use crate::record::{LogLevel, SpanStatus};
use opentelemetry::logs::{AnyValue, Logger, LoggerProvider, LogRecord, Severity};
use opentelemetry::metrics::MeterProvider;
use opentelemetry::trace::{Span, Status, Tracer, TracerProvider};
use opentelemetry_otlp::WithExportConfig;

verus! {

#[verifier::external_type_specification]
#[verifier::external_body]
#[verifier::reject_recursive_types(T)]
pub struct ExCounter<T>(opentelemetry::metrics::Counter<T>);

#[verifier::external_type_specification]
#[verifier::external_body]
pub struct ExSdkTracerProvider(opentelemetry_sdk::trace::SdkTracerProvider);

#[verifier::external_type_specification]
#[verifier::external_body]
pub struct ExSdkMeterProvider(opentelemetry_sdk::metrics::SdkMeterProvider);

#[verifier::external_type_specification]
#[verifier::external_body]
pub struct ExSdkLoggerProvider(opentelemetry_sdk::logs::SdkLoggerProvider);

#[verifier::external_type_specification]
#[verifier::external_body]
pub struct ExExporterBuildError(opentelemetry_otlp::ExporterBuildError);

#[verifier::external_type_specification]
#[verifier::external_body]
pub struct ExOTelSdkError(opentelemetry_sdk::error::OTelSdkError);

/// Relies on `opentelemetry_otlp::SpanExporter`'s builder (HTTP transport,
/// JSON protocol, the given endpoint), `opentelemetry_sdk::Resource`'s
/// builder and `SdkTracerProvider::builder` with a batching exporter: on
/// success the provider batches finished spans and pushes them to the
/// endpoint, stamped with the given service name and attribute pairs.
#[verifier::external_body]
pub(crate) fn build_span_provider(
    url: &str,
    service_name: &str,
    attrs: &Vec<(String, String)>,
) -> Result<opentelemetry_sdk::trace::SdkTracerProvider, opentelemetry_otlp::ExporterBuildError> {
    let exporter = opentelemetry_otlp::SpanExporter::builder().with_http().with_protocol(
        opentelemetry_otlp::Protocol::HttpJson,
    ).with_endpoint(url.to_string()).build()?;
    let resource = opentelemetry_sdk::Resource::builder().with_service_name(
        service_name.to_string(),
    ).with_attributes(
        attrs.iter().map(|p| opentelemetry::KeyValue::new(p.0.clone(), p.1.clone())),
    ).build();
    Ok(
        opentelemetry_sdk::trace::SdkTracerProvider::builder().with_resource(
            resource,
        ).with_batch_exporter(exporter).build(),
    )
}

/// Relies on `opentelemetry_otlp::MetricExporter`'s builder,
/// `PeriodicReader::builder` with the given collection interval in
/// seconds, `Resource`'s builder and `SdkMeterProvider::builder`: on
/// success the provider reads instrument state every interval and pushes
/// it to the endpoint, stamped with the given service name and attribute
/// pairs.
#[verifier::external_body]
pub(crate) fn build_meter_provider(
    url: &str,
    service_name: &str,
    attrs: &Vec<(String, String)>,
    interval_secs: u64,
) -> Result<opentelemetry_sdk::metrics::SdkMeterProvider, opentelemetry_otlp::ExporterBuildError> {
    let exporter = opentelemetry_otlp::MetricExporter::builder().with_http().with_protocol(
        opentelemetry_otlp::Protocol::HttpJson,
    ).with_endpoint(url.to_string()).build()?;
    let reader = opentelemetry_sdk::metrics::PeriodicReader::builder(exporter).with_interval(
        std::time::Duration::from_secs(interval_secs),
    ).build();
    let resource = opentelemetry_sdk::Resource::builder().with_service_name(
        service_name.to_string(),
    ).with_attributes(
        attrs.iter().map(|p| opentelemetry::KeyValue::new(p.0.clone(), p.1.clone())),
    ).build();
    let builder = opentelemetry_sdk::metrics::SdkMeterProvider::builder();
    Ok(builder.with_resource(resource).with_reader(reader).build())
}

/// Relies on `opentelemetry_otlp::LogExporter`'s builder, `Resource`'s
/// builder and `SdkLoggerProvider::builder` with a batching exporter: on
/// success the provider batches log records and pushes them to the
/// endpoint, stamped with the given service name and attribute pairs.
#[verifier::external_body]
pub(crate) fn build_logger_provider(
    url: &str,
    service_name: &str,
    attrs: &Vec<(String, String)>,
) -> Result<opentelemetry_sdk::logs::SdkLoggerProvider, opentelemetry_otlp::ExporterBuildError> {
    let exporter = opentelemetry_otlp::LogExporter::builder().with_http().with_protocol(
        opentelemetry_otlp::Protocol::HttpJson,
    ).with_endpoint(url.to_string()).build()?;
    let resource = opentelemetry_sdk::Resource::builder().with_service_name(
        service_name.to_string(),
    ).with_attributes(
        attrs.iter().map(|p| opentelemetry::KeyValue::new(p.0.clone(), p.1.clone())),
    ).build();
    Ok(
        opentelemetry_sdk::logs::SdkLoggerProvider::builder().with_resource(
            resource,
        ).with_batch_exporter(exporter).build(),
    )
}

/// Relies on `TracerProvider::tracer`, `Tracer::span_builder`,
/// `SpanBuilder::with_attributes`, `Span::set_status` and `Span::end`:
/// hands one finished span with the given name, attribute pairs and
/// status to the provider's batching processor.
#[verifier::external_body]
pub(crate) fn emit_span(
    p: &opentelemetry_sdk::trace::SdkTracerProvider,
    scope: &str,
    name: &str,
    attrs: &Vec<(String, String)>,
    status: SpanStatus,
) {
    let tracer = p.tracer(scope.to_string());
    let mut span = tracer.span_builder(name.to_string()).with_attributes(
        attrs.iter().map(|p| opentelemetry::KeyValue::new(p.0.clone(), p.1.clone())),
    ).start(&tracer);
    span.set_status(
        match status {
            SpanStatus::Unset => Status::Unset,
            SpanStatus::Okay => Status::Ok,
            SpanStatus::Error => Status::error(String::new()),
        },
    );
    span.end();
}

/// Relies on `LoggerProvider::logger`, `Logger::create_log_record`, the
/// `LogRecord` setters and `Logger::emit`: hands one structured log record
/// with the given severity, body and fields to the provider's batching
/// processor.
#[verifier::external_body]
pub(crate) fn emit_log(
    p: &opentelemetry_sdk::logs::SdkLoggerProvider,
    scope: &str,
    level: LogLevel,
    message: &str,
    fields: &Vec<(String, String)>,
) {
    let logger = p.logger(scope.to_string());
    let mut rec = logger.create_log_record();
    rec.set_severity_number(
        match level {
            LogLevel::Debug => Severity::Debug,
            LogLevel::Info => Severity::Info,
            LogLevel::Warn => Severity::Warn,
            LogLevel::Error => Severity::Error,
        },
    );
    rec.set_body(AnyValue::from(message.to_string()));
    rec.add_attributes(fields.iter().map(|p| (p.0.clone(), p.1.clone())));
    logger.emit(rec);
}

/// Relies on `MeterProvider::meter_with_scope`, `Meter::u64_counter` and
/// `InstrumentBuilder::build`: a handle to the named monotonic counter
/// instrument of the provider.
#[verifier::external_body]
pub(crate) fn make_counter(
    p: &opentelemetry_sdk::metrics::SdkMeterProvider,
    scope: &str,
    name: &str,
) -> opentelemetry::metrics::Counter<u64> {
    let meter = p.meter_with_scope(
        opentelemetry::InstrumentationScope::builder(scope.to_string()).build(),
    );
    meter.u64_counter(name.to_string()).build()
}

/// Relies on `Counter::<u64>::add`: contributes `amount` to the counter,
/// tagged with the given attribute pairs.
#[verifier::external_body]
pub(crate) fn counter_add(
    c: &opentelemetry::metrics::Counter<u64>,
    amount: u64,
    attrs: &Vec<(String, String)>,
) {
    let tags: Vec<opentelemetry::KeyValue> = attrs.iter().map(
        |p| opentelemetry::KeyValue::new(p.0.clone(), p.1.clone()),
    ).collect();
    c.add(amount, tags.as_slice());
}

/// Relies on `SdkTracerProvider::shutdown`: flushes buffered spans
/// synchronously and releases exporter resources.
#[verifier::external_body]
pub(crate) fn shutdown_tracer_provider(p: &opentelemetry_sdk::trace::SdkTracerProvider) -> Result<
    (),
    opentelemetry_sdk::error::OTelSdkError,
> {
    p.shutdown()
}

/// Relies on `SdkMeterProvider::shutdown`: runs one final collection pass
/// and releases exporter resources.
#[verifier::external_body]
pub(crate) fn shutdown_meter_provider(p: &opentelemetry_sdk::metrics::SdkMeterProvider) -> Result<
    (),
    opentelemetry_sdk::error::OTelSdkError,
> {
    p.shutdown()
}

/// Relies on `SdkLoggerProvider::shutdown`: flushes buffered log records
/// synchronously and releases exporter resources.
#[verifier::external_body]
pub(crate) fn shutdown_logger_provider(p: &opentelemetry_sdk::logs::SdkLoggerProvider) -> Result<
    (),
    opentelemetry_sdk::error::OTelSdkError,
> {
    p.shutdown()
}

} // verus!

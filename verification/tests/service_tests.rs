use otel_service::config::Signal;
use otel_service::coordinator::{
    coordinator_step, CoordinatorAction, CoordinatorEvent, CoordinatorState,
};
use otel_service::identity::ResourceIdentity;
use otel_service::record::{LogLevel, SpanStatus};
use otel_service::metric_pipeline::MetricPipeline;
use otel_service::service::Service;
use otel_service::span_pipeline::SpanPipeline;

#[test]
fn build_fails_on_malformed_endpoint() {
    let r = Service::build("not a url ::", "rust-example".to_string());
    match r {
        Err(e) => assert_eq!(e.signal, Signal::Traces),
        Ok(_) => panic!("expected a build failure on a malformed endpoint"),
    }
}

#[test]
fn span_pipeline_flushes_everything_on_shutdown() {
    let identity = ResourceIdentity::new("svc".to_string(), "rust".to_string(), Vec::new());
    let mut p = SpanPipeline::build("http://localhost:4318", identity)
        .unwrap_or_else(|_| panic!("span pipeline should build"));
    let mut attrs: Vec<(String, String)> = Vec::new();
    attrs.push(("http.method".to_string(), "GET".to_string()));
    p.record("first".to_string(), attrs, SpanStatus::Okay, 0, 1);
    p.record("second".to_string(), Vec::new(), SpanStatus::Unset, 2, 3);
    assert_eq!(p.buffered.len(), 2);
    assert_eq!(p.exported.len(), 0);
    let _ = p.shutdown();
    assert!(p.down);
    assert_eq!(p.buffered.len(), 0);
    assert_eq!(p.exported.len(), 2);
    assert_eq!(p.exported[0].name, "first");
    assert_eq!(p.exported[1].name, "second");
}

#[test]
fn hello_scenario_end_to_end() {
    let mut sv = Service::build("http://localhost:4318", "rust-example".to_string())
        .unwrap_or_else(|_| panic!("pipelines should build"));

    for _ in 0..3 {
        let r = sv.handle_hello();
        assert_eq!(r, "Hello from Rust!");
    }

    assert_eq!(sv.request_count, 3);

    assert_eq!(sv.spans.buffered.len(), 3);
    for r in &sv.spans.buffered {
        assert_eq!(r.name, "GET /hello");
        assert!(matches!(r.status, SpanStatus::Okay));
        assert_eq!(r.attributes.len(), 2);
        assert_eq!(r.attributes[0], ("http.method".to_string(), "GET".to_string()));
        assert_eq!(r.attributes[1], ("http.route".to_string(), "/hello".to_string()));
        assert!(r.start_tick < r.end_tick);
    }

    assert_eq!(sv.metrics.series.len(), 1);
    let series = &sv.metrics.series[sv.hello_series];
    assert_eq!(series.label, "/hello");
    assert_eq!(series.total, 3);
    assert_eq!(sv.metrics.instruments[series.instrument].name, "hello.requests");

    let observed: Vec<u64> = sv.metrics.observations.iter().map(|o| o.1).collect();
    assert_eq!(observed, vec![1, 2, 3]);

    assert_eq!(sv.logs.buffered.len(), 3);
    for lr in &sv.logs.buffered {
        assert!(matches!(lr.level, LogLevel::Info));
        assert_eq!(lr.message, "Hello endpoint called");
        assert_eq!(lr.fields.len(), 1);
        assert_eq!(lr.fields[0], ("endpoint".to_string(), "/hello".to_string()));
    }

    assert_eq!(sv.identity.service_name, "rust-example");
    assert_eq!(sv.identity.language_tag, "rust");
    assert_eq!(sv.spans.resource.service_name, sv.identity.service_name);
    assert_eq!(sv.metrics.resource.service_name, sv.identity.service_name);
    assert_eq!(sv.logs.resource.service_name, sv.identity.service_name);
    for r in &sv.spans.buffered {
        assert_eq!(r.resource.service_name, sv.identity.service_name);
        assert_eq!(r.resource.language_tag, sv.identity.language_tag);
    }
    for lr in &sv.logs.buffered {
        assert_eq!(lr.resource.service_name, sv.identity.service_name);
        assert_eq!(lr.resource.language_tag, sv.identity.language_tag);
    }

    let (st, act) = coordinator_step(CoordinatorState::Running, CoordinatorEvent::CancelRequested);
    assert!(matches!(st, CoordinatorState::Draining));
    assert!(matches!(act, CoordinatorAction::DrainPipelines));

    let _outcome = sv.shutdown();
    assert!(sv.spans.down);
    assert!(sv.metrics.down);
    assert!(sv.logs.down);
    assert_eq!(sv.spans.buffered.len(), 0);
    assert_eq!(sv.spans.exported.len(), 3);
    assert_eq!(sv.logs.buffered.len(), 0);
    assert_eq!(sv.logs.exported.len(), 3);
    assert_eq!(sv.metrics.series[sv.hello_series].total, 3);
    for r in &sv.spans.exported {
        assert!(matches!(r.status, SpanStatus::Okay));
        assert_eq!(r.resource.service_name, sv.identity.service_name);
    }

    let (st2, act2) = coordinator_step(st, CoordinatorEvent::DrainComplete);
    assert!(matches!(st2, CoordinatorState::Terminated));
    assert!(matches!(act2, CoordinatorAction::ExitProcess));
}

#[test]
fn shared_identity_follows_the_configured_name() {
    let mut sv = Service::build("http://localhost:4318", "svc-a".to_string())
        .unwrap_or_else(|_| panic!("pipelines should build"));
    let _ = sv.handle_hello();
    assert_eq!(sv.spans.buffered[0].resource.service_name, "svc-a");
    assert_eq!(sv.logs.buffered[0].resource.service_name, "svc-a");
    let _ = sv.shutdown();
}

#[test]
fn metric_series_accumulate_independently() {
    let identity = ResourceIdentity::new("svc".to_string(), "rust".to_string(), Vec::new());
    let mut p = MetricPipeline::build("http://localhost:4318", identity)
        .unwrap_or_else(|_| panic!("metric pipeline should build"));
    let h = p.counter("hits".to_string());
    let a = p.counter_series(h, "/a".to_string());
    let b = p.counter_series(h, "/b".to_string());
    p.add(a, 1, 1);
    p.add(a, 1, 2);
    p.add(b, 5, 3);
    assert_eq!(p.instruments[h].name, "hits");
    assert_eq!(p.series[a].label, "/a");
    assert_eq!(p.series[a].total, 2);
    assert_eq!(p.series[b].label, "/b");
    assert_eq!(p.series[b].total, 5);
    let _ = p.shutdown();
    assert!(p.down);
    assert_eq!(p.series[a].total, 2);
    assert_eq!(p.series[b].total, 5);
}

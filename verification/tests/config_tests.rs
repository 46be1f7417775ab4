use otel_service::config::{resolve_endpoint, resolve_service_name, signal_path, signal_url, Signal};
use otel_service::coordinator::{
    coordinator_step, CoordinatorAction, CoordinatorEvent, CoordinatorState,
};
use otel_service::identity::ResourceIdentity;

#[test]
fn endpoint_defaults_when_absent() {
    assert_eq!(resolve_endpoint(None), "http://localhost:4318");
}

#[test]
fn endpoint_defaults_when_empty() {
    assert_eq!(resolve_endpoint(Some(String::new())), "http://localhost:4318");
}

#[test]
fn endpoint_keeps_configured_value() {
    let configured = Some("http://collector:9999".to_string());
    assert_eq!(resolve_endpoint(configured), "http://collector:9999");
}

#[test]
fn service_name_defaults_when_absent() {
    assert_eq!(resolve_service_name(None), "rust-example");
}

#[test]
fn service_name_keeps_configured_value() {
    let configured = Some("my-service".to_string());
    assert_eq!(resolve_service_name(configured), "my-service");
}

#[test]
fn service_name_keeps_a_set_but_empty_value() {
    assert_eq!(resolve_service_name(Some(String::new())), "");
}

#[test]
fn signal_paths_are_fixed() {
    assert_eq!(signal_path(Signal::Traces), "/v1/traces");
    assert_eq!(signal_path(Signal::Metrics), "/v1/metrics");
    assert_eq!(signal_path(Signal::Logs), "/v1/logs");
}

#[test]
fn signal_urls_append_suffix_to_configured_base() {
    assert_eq!(
        signal_url("http://collector:9999", Signal::Traces),
        "http://collector:9999/v1/traces"
    );
    assert_eq!(
        signal_url("http://collector:9999", Signal::Metrics),
        "http://collector:9999/v1/metrics"
    );
    assert_eq!(
        signal_url("http://collector:9999", Signal::Logs),
        "http://collector:9999/v1/logs"
    );
}

#[test]
fn signal_urls_from_default_base() {
    let base = resolve_endpoint(None);
    assert_eq!(signal_url(&base, Signal::Traces), "http://localhost:4318/v1/traces");
    assert_eq!(signal_url(&base, Signal::Metrics), "http://localhost:4318/v1/metrics");
    assert_eq!(signal_url(&base, Signal::Logs), "http://localhost:4318/v1/logs");
}

#[test]
fn identity_replica_keeps_all_attributes() {
    let mut extras: Vec<(String, String)> = Vec::new();
    extras.push(("deployment".to_string(), "test".to_string()));
    let id = ResourceIdentity::new("svc".to_string(), "rust".to_string(), extras);
    let copy = id.replica();
    assert_eq!(copy.service_name, "svc");
    assert_eq!(copy.language_tag, "rust");
    assert_eq!(copy.extras.len(), 1);
    assert_eq!(copy.extras[0], ("deployment".to_string(), "test".to_string()));
}

#[test]
fn cancellation_starts_the_drain() {
    let (st, act) = coordinator_step(CoordinatorState::Running, CoordinatorEvent::CancelRequested);
    assert!(matches!(st, CoordinatorState::Draining));
    assert!(matches!(act, CoordinatorAction::DrainPipelines));
}

#[test]
fn server_exit_terminates_without_drain() {
    let (st, act) = coordinator_step(CoordinatorState::Running, CoordinatorEvent::ServerExited);
    assert!(matches!(st, CoordinatorState::Terminated));
    assert!(matches!(act, CoordinatorAction::ExitProcess));
}

#[test]
fn drain_complete_terminates() {
    let (st, act) = coordinator_step(CoordinatorState::Draining, CoordinatorEvent::DrainComplete);
    assert!(matches!(st, CoordinatorState::Terminated));
    assert!(matches!(act, CoordinatorAction::ExitProcess));
}

#[test]
fn unexpected_events_keep_the_state() {
    let (st, act) = coordinator_step(CoordinatorState::Draining, CoordinatorEvent::CancelRequested);
    assert!(matches!(st, CoordinatorState::Draining));
    assert!(matches!(act, CoordinatorAction::KeepRunning));
    let (st2, act2) = coordinator_step(CoordinatorState::Terminated, CoordinatorEvent::CancelRequested);
    assert!(matches!(st2, CoordinatorState::Terminated));
    assert!(matches!(act2, CoordinatorAction::ExitProcess));
}

#[test]
fn resource_pairs_list_language_then_extras() {
    let mut extras: Vec<(String, String)> = Vec::new();
    extras.push(("deployment".to_string(), "test".to_string()));
    let id = ResourceIdentity::new("svc".to_string(), "rust".to_string(), extras);
    let pairs = id.resource_pairs();
    assert_eq!(pairs.len(), 2);
    assert_eq!(pairs[0], ("telemetry.sdk.language".to_string(), "rust".to_string()));
    assert_eq!(pairs[1], ("deployment".to_string(), "test".to_string()));
}

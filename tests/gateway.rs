use ollama_gateway::api::{
    generate_result, generation_body, list_result, pull_body, pull_result, Endpoint, Exchange,
    GenerationRequest, GenerationResponse, Method,
};
use ollama_gateway::error::GatewayError;
use ollama_gateway::start::{started_message, StartAction, StartEvent, StartSession, START_DELAY_MS};
use ollama_gateway::status::{
    classify_status, status_after_lookup, status_after_probe, DaemonStatus, Platform, StatusStep,
};

#[test]
fn status_running_whenever_daemon_answers() {
    for platform in [Platform::Posix, Platform::Other] {
        for lookup in [None, Some(true), Some(false)] {
            assert_eq!(classify_status(platform, true, lookup), DaemonStatus::Running);
        }
    }
    assert_eq!(status_after_probe(Platform::Posix, true), StatusStep::Done(DaemonStatus::Running));
}

#[test]
fn status_posix_without_answer_looks_up_executable() {
    assert_eq!(status_after_probe(Platform::Posix, false), StatusStep::LookUpExecutable);
    assert_eq!(status_after_lookup(Some(true)), DaemonStatus::Installed);
    assert_eq!(status_after_lookup(Some(false)), DaemonStatus::NotInstalled);
    assert_eq!(status_after_lookup(None), DaemonStatus::NotInstalled);
    assert_eq!(classify_status(Platform::Posix, false, Some(true)), DaemonStatus::Installed);
    assert_eq!(classify_status(Platform::Posix, false, Some(false)), DaemonStatus::NotInstalled);
}

#[test]
fn status_other_platform_without_answer_is_not_installed() {
    assert_eq!(
        status_after_probe(Platform::Other, false),
        StatusStep::Done(DaemonStatus::NotInstalled)
    );
    assert_eq!(classify_status(Platform::Other, false, Some(true)), DaemonStatus::NotInstalled);
}

#[test]
fn status_labels_cover_all_four_combinations() {
    let labels = [
        classify_status(Platform::Posix, true, None).label(),
        classify_status(Platform::Posix, false, Some(true)).label(),
        classify_status(Platform::Posix, false, Some(false)).label(),
        classify_status(Platform::Other, false, None).label(),
    ];
    assert_eq!(labels, ["running", "installed", "not_installed", "not_installed"]);
}

#[test]
fn start_on_posix_spawns_then_sleeps_then_reports_started() {
    let mut s = StartSession::new(Platform::Posix);
    assert_eq!(s.step(StartEvent::Begin), StartAction::Spawn);
    assert_eq!(s.step(StartEvent::SpawnSucceeded), StartAction::Sleep(2000));
    assert_eq!(s.step(StartEvent::Slept(2000)), StartAction::Started);
    assert!(s.spawned);
    assert_eq!(s.waited_ms, START_DELAY_MS);
    assert_eq!(started_message(), "started");
}

#[test]
fn start_early_wakeup_sleeps_the_remainder() {
    let mut s = StartSession::new(Platform::Posix);
    s.step(StartEvent::Begin);
    s.step(StartEvent::SpawnSucceeded);
    assert_eq!(s.step(StartEvent::Slept(1500)), StartAction::Sleep(500));
    assert_eq!(s.step(StartEvent::Slept(499)), StartAction::Sleep(1));
    assert_eq!(s.step(StartEvent::Slept(1)), StartAction::Started);
}

#[test]
fn start_sleep_before_spawn_does_not_count() {
    let mut s = StartSession::new(Platform::Posix);
    assert_eq!(s.step(StartEvent::Slept(5000)), StartAction::Spawn);
    assert_eq!(s.waited_ms, 0);
    assert_eq!(s.step(StartEvent::SpawnSucceeded), StartAction::Sleep(2000));
}

#[test]
fn start_wait_saturates() {
    let mut s = StartSession::new(Platform::Posix);
    s.step(StartEvent::SpawnSucceeded);
    assert_eq!(s.step(StartEvent::Slept(u64::MAX)), StartAction::Started);
    assert_eq!(s.step(StartEvent::Slept(u64::MAX)), StartAction::Started);
    assert_eq!(s.waited_ms, u64::MAX);
}

#[test]
fn start_spawn_failure_is_reported() {
    let mut s = StartSession::new(Platform::Posix);
    s.step(StartEvent::Begin);
    let a = s.step(StartEvent::SpawnFailed("No such file or directory".to_string()));
    assert_eq!(
        a,
        StartAction::Fail(GatewayError::SpawnFailed("No such file or directory".to_string()))
    );
    if let StartAction::Fail(e) = a {
        assert_eq!(e.message(), "Failed to start Ollama: No such file or directory");
    }
}

#[test]
fn start_on_other_platform_always_unsupported() {
    let events = [
        StartEvent::Begin,
        StartEvent::SpawnSucceeded,
        StartEvent::SpawnFailed("x".to_string()),
        StartEvent::Slept(3000),
    ];
    for e in events {
        let mut s = StartSession::new(Platform::Other);
        assert_eq!(s.step(e), StartAction::Fail(GatewayError::Unsupported));
        assert_eq!(s, StartSession::new(Platform::Other));
    }
    assert_eq!(GatewayError::Unsupported.message(), "Platform not supported for auto-start");
}

#[test]
fn endpoints_have_fixed_addresses() {
    assert_eq!(Endpoint::Tags.url(), "http://localhost:11434/api/tags");
    assert_eq!(Endpoint::Generate.url(), "http://localhost:11434/api/generate");
    assert_eq!(Endpoint::Pull.url(), "http://localhost:11434/api/pull");
    assert_eq!(Endpoint::Tags.path(), "/api/tags");
    assert_eq!(Endpoint::Tags.method(), Method::Get);
    assert_eq!(Endpoint::Generate.method(), Method::Post);
    assert_eq!(Endpoint::Pull.method(), Method::Post);
}

#[test]
fn generation_body_forwards_fields_and_disables_streaming() {
    let b = generation_body(GenerationRequest {
        prompt: "Write a quiz".to_string(),
        model: "llama3".to_string(),
    });
    assert_eq!(b.model, "llama3");
    assert_eq!(b.prompt, "Write a quiz");
    assert!(!b.stream);
    let empty = generation_body(GenerationRequest { prompt: String::new(), model: String::new() });
    assert_eq!(empty.model, "");
    assert_eq!(empty.prompt, "");
}

#[test]
fn generate_returns_response_text_exactly() {
    let r = generate_result(Exchange::Received(GenerationResponse { response: "X".to_string() }));
    assert_eq!(r, Ok("X".to_string()));
}

#[test]
fn generate_unreachable_differs_from_parse_failure() {
    let net = generate_result(Exchange::Unreachable("connection refused".to_string()));
    let parse = generate_result(Exchange::Undecodable("connection refused".to_string()));
    let net_err = net.unwrap_err();
    let parse_err = parse.unwrap_err();
    assert_eq!(net_err, GatewayError::RequestFailed("connection refused".to_string()));
    assert_eq!(parse_err, GatewayError::ParseFailed("connection refused".to_string()));
    assert_eq!(net_err.message(), "Request failed: connection refused");
    assert_eq!(parse_err.message(), "Failed to parse response: connection refused");
    assert_ne!(net_err.message(), parse_err.message());
}

#[test]
fn list_returns_body_unchanged() {
    let body = "{\"models\": [ {\"name\":\"llama3:latest\"} ]}\n".to_string();
    assert_eq!(list_result(Exchange::Received(body.clone())), Ok(body));
    assert_eq!(list_result(Exchange::Received(String::new())), Ok(String::new()));
}

#[test]
fn list_errors() {
    let e = list_result(Exchange::Unreachable("timed out".to_string())).unwrap_err();
    assert_eq!(e.message(), "Request failed: timed out");
    let e = list_result(Exchange::Undecodable("invalid utf-8".to_string())).unwrap_err();
    assert_eq!(e, GatewayError::ReadFailed("invalid utf-8".to_string()));
    assert_eq!(e.message(), "Failed to read response: invalid utf-8");
}

#[test]
fn pull_acknowledges_once_sent() {
    assert_eq!(pull_result(Ok(())), Ok("Model pull started".to_string()));
    let b = pull_body("mistral".to_string());
    assert_eq!(b.name, "mistral");
}

#[test]
fn pull_send_failure_is_reported() {
    let e = pull_result(Err("connection refused".to_string())).unwrap_err();
    assert_eq!(e, GatewayError::PullFailed("connection refused".to_string()));
    assert_eq!(e.message(), "Failed to pull model: connection refused");
}

use rusty::action::{ActionDef, ActionKind, ApprovalClass};
use rusty::error::EngineError;
use rusty::host::HostState;
use rusty::invocation::{ActionError, Invocation, InvocationResult, InvocationState};
use rusty::invoke::{begin_invocation, conclude, start_execution, Admission, GuestReply, GuestRun};
use rusty::json::Json;
use rusty::manifest::{PluginManifest, PluginMeta};
use rusty::policy::{PolicyConfig, PolicyEffect, PolicyRule};
use rusty::policy_engine::PolicyEngine;
use rusty::trace::{ExecutionTrace, TraceEvent, TraceEventKind};

fn json(text: &str) -> Json {
    Json::parse(text).unwrap()
}

#[test]
fn new_invocation_starts_in_requested_state() {
    let inv = Invocation::new("p".into(), "a".into(), json("{}"));
    assert_eq!(inv.state, InvocationState::Requested);
    assert!(inv.result.is_none());
    assert_eq!(inv.plugin_id, "p");
    assert_eq!(inv.action_id, "a");
    assert!(inv.trace.events.is_empty());
}

#[test]
fn transition_updates_state_and_timestamp() {
    let mut inv = Invocation::new("p".into(), "a".into(), json("{}"));
    let before = inv.updated_at;
    inv.transition(InvocationState::Validated);
    assert_eq!(inv.state, InvocationState::Validated);
    assert!(inv.updated_at >= before);
}

#[test]
fn record_trace_appends_event() {
    let mut inv = Invocation::new("p".into(), "a".into(), json("{}"));
    assert_eq!(inv.trace.events.len(), 0);
    inv.record_trace(TraceEventKind::ValidationPassed);
    assert_eq!(inv.trace.events.len(), 1);
    inv.record_trace(TraceEventKind::ExecutionStarted);
    assert_eq!(inv.trace.events.len(), 2);
}

#[test]
fn finalize_success_sets_completed_with_output() {
    let mut inv = Invocation::new("p".into(), "a".into(), json("{}"));
    inv.finalize_success(json(r#"{"result": 42}"#), 100);
    assert_eq!(inv.state, InvocationState::Completed);
    match &inv.result {
        Some(InvocationResult::Success(v)) => assert_eq!(v.as_str(), r#"{"result":42}"#),
        other => panic!("expected Success, got {other:?}"),
    }
    // Should have recorded ExecutionSucceeded trace
    assert!(inv
        .trace
        .events
        .iter()
        .any(|e| matches!(&e.kind, TraceEventKind::ExecutionSucceeded { duration_ms: 100 })));
}

#[test]
fn finalize_error_sets_failed_with_error() {
    let mut inv = Invocation::new("p".into(), "a".into(), json("{}"));
    inv.finalize_error(ActionError {
        code: "boom".into(),
        message: "it broke".into(),
        details: Some(json(r#"{"hint": "fix it"}"#)),
    });
    assert_eq!(inv.state, InvocationState::Failed);
    match &inv.result {
        Some(InvocationResult::Error(e)) => {
            assert_eq!(e.code, "boom");
            assert_eq!(e.message, "it broke");
            assert!(e.details.is_some());
        },
        other => panic!("expected Error, got {other:?}"),
    }
}

#[test]
fn trace_event_has_timestamp_and_invocation_id() {
    let id: u128 = 0x1234_5678_9abc_def0_1234_5678_9abc_def0;
    let event = TraceEvent::new(Some(id), TraceEventKind::ExecutionStarted);
    assert_eq!(event.invocation_id, Some(id));
    // Timestamp should be recent (within last second)
    let elapsed = chrono::Utc::now().timestamp_micros() - event.timestamp;
    assert!(elapsed < 1_000_000);
}

#[test]
fn execution_trace_records_events_in_order() {
    let id: u128 = 7;
    let mut trace = ExecutionTrace::new(id, "plug".into(), "act".into());
    assert!(trace.events.is_empty());

    trace.record(TraceEventKind::ValidationPassed);
    trace.record(TraceEventKind::PolicyAllowed { rule: "default".into() });
    trace.record(TraceEventKind::ExecutionStarted);
    trace.record(TraceEventKind::ExecutionSucceeded { duration_ms: 42 });

    assert_eq!(trace.events.len(), 4);
    assert!(matches!(&trace.events[0].kind, TraceEventKind::ValidationPassed));
    assert!(matches!(&trace.events[3].kind, TraceEventKind::ExecutionSucceeded { .. }));
    for event in &trace.events {
        assert_eq!(event.invocation_id, Some(id));
    }
}

fn greet_manifest() -> PluginManifest {
    PluginManifest {
        plugin: PluginMeta {
            id: "hello-world".into(),
            name: "Hello World".into(),
            version: "0.1.0".into(),
            author: "Tyler Gibbs".into(),
            description: "A greeting plugin".into(),
            runtime_compat: "0.1".into(),
        },
        actions: vec![ActionDef {
            id: "greet".into(),
            title: "Greet".into(),
            description: "Returns a personalized greeting".into(),
            input_schema: json(r#"{"type":"object","required":["name"],"properties":{"name":{"type":"string"}}}"#),
            output_schema: json(r#"{"type":"object","required":["message"],"properties":{"message":{"type":"string"}}}"#),
            kind: ActionKind::ReadOnly,
            approval: ApprovalClass::NoneRequired,
            tags: vec!["demo".into()],
            capabilities: vec![],
        }],
        capabilities: vec![],
    }
}

fn allow_all() -> PolicyEngine {
    PolicyEngine::new(PolicyConfig::default())
}

fn kinds(inv: &Invocation) -> Vec<String> {
    inv.trace
        .events
        .iter()
        .map(|e| match &e.kind {
            TraceEventKind::InvocationRequested { .. } => "invocation_requested",
            TraceEventKind::ValidationPassed => "validation_passed",
            TraceEventKind::ValidationFailed { .. } => "validation_failed",
            TraceEventKind::PolicyAllowed { .. } => "policy_allowed",
            TraceEventKind::PolicyDenied { .. } => "policy_denied",
            TraceEventKind::PolicyRequiresApproval { .. } => "policy_requires_approval",
            TraceEventKind::ExecutionStarted => "execution_started",
            TraceEventKind::ExecutionSucceeded { .. } => "execution_succeeded",
            TraceEventKind::ExecutionFailed { .. } => "execution_failed",
            TraceEventKind::ExecutionTimedOut { .. } => "execution_timed_out",
            TraceEventKind::ExecutionCancelled => "execution_cancelled",
            TraceEventKind::HostCallIssued { .. } => "host_call_issued",
            TraceEventKind::CustomEvent { .. } => "custom_event",
            TraceEventKind::PluginLoaded { .. } => "plugin_loaded",
            TraceEventKind::ActionDiscovered { .. } => "action_discovered",
        })
        .map(String::from)
        .collect()
}

fn scheduled(adm: Admission) -> Invocation {
    match adm {
        Admission::Scheduled(inv) => inv,
        Admission::Settled(inv) => panic!("expected a scheduled invocation, got {inv:?}"),
    }
}

fn settled(adm: Admission) -> Invocation {
    match adm {
        Admission::Settled(inv) => inv,
        Admission::Scheduled(inv) => panic!("expected a settled invocation, got {inv:?}"),
    }
}

fn error_of(inv: &Invocation) -> &ActionError {
    match &inv.result {
        Some(InvocationResult::Error(e)) => e,
        other => panic!("expected an error, got {other:?}"),
    }
}

fn reply(text: &str) -> Result<GuestRun, EngineError> {
    Ok(GuestRun { reply: GuestReply::Output(text.into()), duration_ms: 3 })
}

#[test]
fn invoke_traces_full_lifecycle() {
    let adm = begin_invocation(&greet_manifest(), "greet", json(r#"{"name": "World"}"#), &allow_all()).unwrap();
    let mut inv = scheduled(adm);
    assert_eq!(inv.state, InvocationState::Scheduled);
    start_execution(&mut inv);
    assert_eq!(inv.state, InvocationState::Started);
    let mut host = HostState::new(inv.id, inv.plugin_id.clone(), inv.action_id.clone(), vec![]);
    host.log();
    conclude(&mut inv, host.trace.events, reply(r#"{"message": "Hello, World!"}"#));
    assert_eq!(inv.state, InvocationState::Completed);
    match &inv.result {
        Some(InvocationResult::Success(v)) => assert_eq!(v.as_str(), r#"{"message":"Hello, World!"}"#),
        other => panic!("expected Success, got {other:?}"),
    }
    assert_eq!(
        kinds(&inv),
        vec![
            "invocation_requested",
            "validation_passed",
            "policy_allowed",
            "execution_started",
            "host_call_issued",
            "execution_succeeded"
        ]
    );
    assert!(inv.trace.events.iter().all(|e| e.invocation_id == Some(inv.id)));
    assert!(matches!(&inv.trace.events[2].kind, TraceEventKind::PolicyAllowed { rule } if rule == "default"));
}

#[test]
fn invoke_rejects_invalid_input() {
    let inv = settled(begin_invocation(&greet_manifest(), "greet", json("{}"), &allow_all()).unwrap());
    assert_eq!(inv.state, InvocationState::Failed);
    let e = error_of(&inv);
    assert_eq!(e.code, "validation_failed");
    assert!(e.message.contains("name"), "error should mention the missing field: {}", e.message);
    assert_eq!(e.message, "\"name\" is a required property");
    match &inv.trace.events[1].kind {
        TraceEventKind::ValidationFailed { reason } => {
            assert_eq!(reason, "validation failed: \"name\" is a required property")
        },
        other => panic!("unexpected {other:?}"),
    }
    assert_eq!(kinds(&inv), vec!["invocation_requested", "validation_failed", "execution_failed"]);
}

#[test]
fn invoke_rejects_wrong_type_input() {
    let inv = settled(begin_invocation(&greet_manifest(), "greet", json(r#"{"name": 42}"#), &allow_all()).unwrap());
    assert_eq!(inv.state, InvocationState::Failed);
    assert_eq!(error_of(&inv).code, "validation_failed");
}

#[test]
fn invoke_unknown_action_returns_error() {
    let err = match begin_invocation(&greet_manifest(), "nonexistent", json("{}"), &allow_all()) {
        Err(e) => e,
        Ok(_) => panic!("expected an error"),
    };
    assert!(err.to_string().contains("nonexistent"), "error should mention the action: {}", err.to_string());
    assert_eq!(err.to_string(), "action not found: hello-world/nonexistent");
}

#[test]
fn invoke_denied_by_policy() {
    let deny = PolicyEngine::new(PolicyConfig { default_effect: PolicyEffect::Deny, rules: vec![] });
    let inv = settled(begin_invocation(&greet_manifest(), "greet", json(r#"{"name": "Denied"}"#), &deny).unwrap());
    assert_eq!(inv.state, InvocationState::Failed);
    let e = error_of(&inv);
    assert_eq!(e.code, "policy_denied");
    assert_eq!(e.message, "no rule matched, using default: deny");
    assert_eq!(kinds(&inv), vec!["invocation_requested", "validation_passed", "policy_denied", "execution_failed"]);
}

#[test]
fn invoke_allowed_by_specific_rule() {
    let policy = PolicyEngine::new(PolicyConfig {
        default_effect: PolicyEffect::Deny,
        rules: vec![PolicyRule {
            id: "allow-greet".into(),
            description: None,
            effect: PolicyEffect::Allow,
            match_action_kind: Some(ActionKind::ReadOnly),
            match_capability: None,
            match_tag: None,
            match_plugin_id: None,
            match_action_id: None,
        }],
    });
    let mut inv = scheduled(begin_invocation(&greet_manifest(), "greet", json(r#"{"name": "Rule"}"#), &policy).unwrap());
    assert!(matches!(&inv.trace.events[2].kind, TraceEventKind::PolicyAllowed { rule } if rule == "allow-greet"));
    start_execution(&mut inv);
    conclude(&mut inv, vec![], reply(r#"{"message":"Hello, Rule!"}"#));
    assert_eq!(inv.state, InvocationState::Completed);
}

#[test]
fn invoke_require_approval_denies_in_m1() {
    let policy = PolicyEngine::new(PolicyConfig { default_effect: PolicyEffect::RequireApproval, rules: vec![] });
    let inv = settled(begin_invocation(&greet_manifest(), "greet", json(r#"{"name": "Approval"}"#), &policy).unwrap());
    assert_eq!(inv.state, InvocationState::Failed);
    let e = error_of(&inv);
    assert_eq!(e.code, "approval_required");
    assert_eq!(
        e.message,
        "action requires approval (not yet implemented): no rule matched, using default: require-approval"
    );
}

fn started() -> Invocation {
    let mut inv = scheduled(begin_invocation(&greet_manifest(), "greet", json(r#"{"name": "X"}"#), &allow_all()).unwrap());
    start_execution(&mut inv);
    inv
}

#[test]
fn invoke_cancellation_stops_execution() {
    let mut inv = started();
    conclude(&mut inv, vec![], Err(EngineError::Cancelled));
    assert_eq!(inv.state, InvocationState::Failed);
    let e = error_of(&inv);
    assert_eq!(e.code, "cancelled");
    assert_eq!(e.message, "execution cancelled");
    let k = kinds(&inv);
    assert_eq!(&k[k.len() - 2..], &["execution_cancelled", "execution_failed"]);
}

#[test]
fn timed_out_run_fails_with_timeout() {
    let mut inv = started();
    conclude(&mut inv, vec![], Err(EngineError::Timeout(30000)));
    let e = error_of(&inv);
    assert_eq!(e.code, "timeout");
    assert_eq!(e.message, "execution timed out after 30000ms");
    assert!(inv.trace.events.iter().any(|e| matches!(e.kind, TraceEventKind::ExecutionTimedOut { timeout_ms: 30000 })));
}

#[test]
fn trap_and_action_errors_fail_with_execution_error() {
    let mut inv = started();
    conclude(&mut inv, vec![], Err(EngineError::Trap("unreachable".into())));
    assert_eq!(error_of(&inv).code, "execution_error");
    assert_eq!(error_of(&inv).message, "wasm trap: unreachable");

    let mut inv = started();
    let run = GuestRun {
        reply: GuestReply::Error { code: "unknown_action".into(), message: "no such thing".into(), details: None },
        duration_ms: 1,
    };
    conclude(&mut inv, vec![], Ok(run));
    assert_eq!(inv.state, InvocationState::Failed);
    assert_eq!(error_of(&inv).code, "execution_error");
    assert_eq!(error_of(&inv).message, "action returned error: [unknown_action] no such thing");
}

#[test]
fn output_that_is_not_json_fails() {
    let mut inv = started();
    conclude(&mut inv, vec![], reply("not json"));
    assert_eq!(inv.state, InvocationState::Failed);
    assert_eq!(error_of(&inv).code, "execution_error");
    assert!(error_of(&inv).message.starts_with("output deserialization failed: "));
}

#[test]
fn multiple_invocations_are_isolated() {
    let a = scheduled(begin_invocation(&greet_manifest(), "greet", json(r#"{"name": "Alice"}"#), &allow_all()).unwrap());
    let b = scheduled(begin_invocation(&greet_manifest(), "greet", json(r#"{"name": "Bob"}"#), &allow_all()).unwrap());
    assert_ne!(a.id, b.id);
    assert_eq!(a.input.as_str(), r#"{"name":"Alice"}"#);
    assert_eq!(b.input.as_str(), r#"{"name":"Bob"}"#);
}

#[test]
fn host_calls_are_recorded() {
    let mut host = HostState::new(
        5,
        "p".into(),
        "a".into(),
        vec![("region".into(), "eu".into()), ("tier".into(), "gold".into())],
    );
    assert_eq!(host.get_config("region"), Some("eu".to_string()));
    assert_eq!(host.get_config("tier"), Some("gold".to_string()));
    assert_eq!(host.get_config("missing"), None);
    host.emit_event("progress".into(), r#"{ "done": 3 }"#);
    host.emit_event("broken".into(), "{not json");
    host.log();
    assert_eq!(host.trace.events.len(), 6);
    assert!(matches!(&host.trace.events[0].kind, TraceEventKind::HostCallIssued { function } if function == "get_config"));
    match &host.trace.events[3].kind {
        TraceEventKind::CustomEvent { event_type, payload } => {
            assert_eq!(event_type, "progress");
            assert_eq!(payload.as_str(), r#"{"done":3}"#);
        },
        other => panic!("unexpected {other:?}"),
    }
    match &host.trace.events[4].kind {
        TraceEventKind::CustomEvent { payload, .. } => assert_eq!(payload.as_str(), "null"),
        other => panic!("unexpected {other:?}"),
    }
    assert!(matches!(&host.trace.events[5].kind, TraceEventKind::HostCallIssued { function } if function == "log"));
    assert!(host.trace.events.iter().all(|e| e.invocation_id == Some(5)));
}

#[test]
fn invalid_input_is_refused_whatever_the_policy() {
    let deny_all = PolicyEngine::new(PolicyConfig { default_effect: PolicyEffect::Deny, rules: vec![] });
    for policy in [allow_all(), deny_all] {
        let inv = settled(begin_invocation(&greet_manifest(), "greet", json(r#"{"name": 7}"#), &policy).unwrap());
        assert_eq!(error_of(&inv).code, "validation_failed");
        assert_eq!(kinds(&inv), vec!["invocation_requested", "validation_failed", "execution_failed"]);
    }
}

#[test]
fn concluded_invocations_are_over() {
    for run in [
        reply(r#"{"message": "hi"}"#),
        reply("not json"),
        Err(EngineError::Trap("unreachable".into())),
    ] {
        let mut inv = scheduled(
            begin_invocation(&greet_manifest(), "greet", json(r#"{"name": "World"}"#), &allow_all()).unwrap(),
        );
        start_execution(&mut inv);
        conclude(&mut inv, vec![], run);
        assert!(inv.result.is_some());
        assert!(matches!(inv.state, InvocationState::Completed | InvocationState::Failed));
    }
}

/// Runs `greet` as the hello-world plugin answers it: one `log` host call,
/// then a greeting for the given name.
fn run_greet(name: &str) -> Invocation {
    let input = format!(r#"{{"name": "{name}"}}"#);
    let mut inv = scheduled(begin_invocation(&greet_manifest(), "greet", json(&input), &allow_all()).unwrap());
    start_execution(&mut inv);
    let mut host = HostState::new(inv.id, inv.plugin_id.clone(), inv.action_id.clone(), vec![]);
    host.log();
    let output = format!(r#"{{"message": "Hello, {name}!"}}"#);
    conclude(&mut inv, host.trace.events, reply(&output));
    inv
}

#[test]
fn invoke_greet_returns_hello_message() {
    let inv = run_greet("World");
    assert_eq!(inv.state, InvocationState::Completed);
    match &inv.result {
        Some(InvocationResult::Success(v)) => assert_eq!(v.as_str(), r#"{"message":"Hello, World!"}"#),
        other => panic!("expected Success, got {other:?}"),
    }
}

#[test]
fn invoke_records_host_log_call_in_trace() {
    let inv = run_greet("HostCall");
    let has_host_call = inv
        .trace
        .events
        .iter()
        .any(|e| matches!(&e.kind, TraceEventKind::HostCallIssued { function } if function == "log"));
    assert!(has_host_call, "plugin calls host_api::log, should see HostCallIssued in trace");
}

#[test]
fn host_calls_of_a_failed_run_are_recorded() {
    for run in [Err(EngineError::Trap("unreachable".into())), Err(EngineError::Timeout(30000)), Err(EngineError::Cancelled)] {
        let mut inv = started();
        let mut host = HostState::new(inv.id, inv.plugin_id.clone(), inv.action_id.clone(), vec![]);
        host.log();
        host.emit_event("progress".into(), "{}");
        conclude(&mut inv, host.trace.events, run);
        assert_eq!(inv.state, InvocationState::Failed);
        let k = kinds(&inv);
        assert_eq!(&k[4..6], &["host_call_issued", "custom_event"]);
        assert_eq!(k.last().map(String::as_str), Some("execution_failed"));
        assert!(inv.trace.events.iter().all(|e| e.invocation_id == Some(inv.id)));
    }
}

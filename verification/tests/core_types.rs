use std::collections::HashSet;

use rusty::action::{ActionKind, ApprovalClass};
use rusty::capability::Capability;
use rusty::error::{EngineError, PolicyError, SchemaError};
use rusty::invocation::InvocationState;
use rusty::policy::PolicyEffect;
use rusty::runtime::RuntimeConfig;

#[test]
fn action_kind_display() {
    assert_eq!(ActionKind::ReadOnly.to_string(), "read-only");
    assert_eq!(ActionKind::Mutating.to_string(), "mutating");
    assert_eq!(ActionKind::Destructive.to_string(), "destructive");
}

#[test]
fn approval_class_display() {
    assert_eq!(ApprovalClass::NoneRequired.to_string(), "none-required");
    assert_eq!(ApprovalClass::AutoApprove.to_string(), "auto-approve");
    assert_eq!(ApprovalClass::RequireHuman.to_string(), "require-human");
}

#[test]
fn hashable_for_sets() {
    let mut set = HashSet::new();
    set.insert(Capability::NetworkFetch);
    set.insert(Capability::NetworkFetch);
    set.insert(Capability::Clock);
    assert_eq!(set.len(), 2);
}

#[test]
fn runtime_config_has_sensible_defaults() {
    let config = RuntimeConfig::default();
    assert!(config.max_memory_bytes > 0);
    assert!(config.max_fuel > 0);
    assert!(config.execution_timeout_secs > 0);
}

#[test]
fn runtime_config_default_values() {
    let config = RuntimeConfig::default();
    assert_eq!(config.max_memory_bytes, 64 * 1024 * 1024);
    assert_eq!(config.max_fuel, 1_000_000_000);
    assert_eq!(config.async_yield_interval, 10_000);
    assert_eq!(config.execution_timeout_secs, 30);
}

#[test]
fn capability_names_are_kebab_case() {
    let all = [
        (Capability::FilesystemRead, "filesystem-read"),
        (Capability::FilesystemWrite, "filesystem-write"),
        (Capability::NetworkFetch, "network-fetch"),
        (Capability::Sqlite, "sqlite"),
        (Capability::KeyValue, "key-value"),
        (Capability::Secrets, "secrets"),
        (Capability::EnvVars, "env-vars"),
        (Capability::Clock, "clock"),
        (Capability::Artifacts, "artifacts"),
        (Capability::Events, "events"),
    ];
    for (cap, name) in all {
        assert_eq!(cap.to_string(), name);
        assert_eq!(cap.as_str(), name);
    }
}

#[test]
fn state_and_effect_names() {
    assert_eq!(InvocationState::PolicyEvaluated.to_string(), "policy-evaluated");
    assert_eq!(InvocationState::TimedOut.to_string(), "timed-out");
    assert_eq!(InvocationState::Completed.to_string(), "completed");
    assert_eq!(PolicyEffect::RequireApproval.to_string(), "require-approval");
    assert_eq!(PolicyEffect::default(), PolicyEffect::Allow);
}

#[test]
fn engine_error_messages() {
    assert_eq!(EngineError::PluginNotFound("p".into()).to_string(), "plugin not found: p");
    assert_eq!(
        EngineError::ActionNotFound { plugin_id: "p".into(), action_id: "a".into() }.to_string(),
        "action not found: p/a"
    );
    assert_eq!(EngineError::LoadFailed("x".into()).to_string(), "plugin load failed: x");
    assert_eq!(EngineError::InitFailed("x".into()).to_string(), "plugin init failed: x");
    assert_eq!(EngineError::Timeout(30000).to_string(), "execution timed out after 30000ms");
    assert_eq!(EngineError::Timeout(0).to_string(), "execution timed out after 0ms");
    assert_eq!(EngineError::Cancelled.to_string(), "execution cancelled");
    assert_eq!(EngineError::Trap("boom".into()).to_string(), "wasm trap: boom");
    assert_eq!(
        EngineError::ActionError { code: "c".into(), message: "m".into() }.to_string(),
        "action returned error: [c] m"
    );
    assert_eq!(EngineError::Other("plain".into()).to_string(), "plain");
}

#[test]
fn schema_and_policy_error_messages() {
    assert_eq!(SchemaError::InvalidSchema("bad".into()).to_string(), "invalid JSON schema: bad");
    assert_eq!(
        SchemaError::ValidationFailed(vec!["one".into(), "two".into(), "three".into()]).to_string(),
        "validation failed: one; two; three"
    );
    assert_eq!(SchemaError::ValidationFailed(vec![]).to_string(), "validation failed: ");
    assert_eq!(PolicyError::Denied("no".into()).to_string(), "policy denied: no");
    assert_eq!(PolicyError::ApprovalRequired("ask".into()).to_string(), "approval required: ask");
}

#[test]
fn decimal_text_of_numbers() {
    assert_eq!(rusty::text::decimal_string(0), "0");
    assert_eq!(rusty::text::decimal_string(7), "7");
    assert_eq!(rusty::text::decimal_string(10), "10");
    assert_eq!(rusty::text::decimal_string(1234567890), "1234567890");
    assert_eq!(rusty::text::decimal_string(u64::MAX), u64::MAX.to_string());
}

#[test]
fn join_with_separator() {
    assert_eq!(rusty::text::join(&vec![], ", "), "");
    assert_eq!(rusty::text::join(&vec!["a".to_string()], ", "), "a");
    assert_eq!(rusty::text::join(&vec!["a".to_string(), "b".to_string()], ", "), "a, b");
}

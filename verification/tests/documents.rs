use rusty::action::{ActionDef, ActionKind, ApprovalClass};
use rusty::capability::Capability;
use rusty::error::{ManifestError, SchemaError};
use rusty::json::Json;
use rusty::manifest::{default_runtime_compat, PluginManifest, PluginMeta};
use rusty::schema::validate;

fn json(text: &str) -> Json {
    Json::parse(text).unwrap()
}

#[test]
fn valid_instance_passes() {
    let schema = json(r#"{"type": "object", "required": ["name"], "properties": {"name": {"type": "string"}}}"#);
    let instance = json(r#"{ "name": "Alice" }"#);
    assert!(validate(&schema, &instance).is_ok());
}

#[test]
fn missing_required_field_fails() {
    let schema = json(r#"{"type": "object", "required": ["name"], "properties": {"name": {"type": "string"}}}"#);
    let instance = json("{}");
    assert!(validate(&schema, &instance).is_err());
}

#[test]
fn wrong_type_fails() {
    let schema = json(r#"{ "type": "string" }"#);
    let instance = json("42");
    assert!(validate(&schema, &instance).is_err());
}

#[test]
fn permissive_schema_passes_anything() {
    let schema = json("{}");
    let instance = json(r#"{ "anything": [1, 2, 3] }"#);
    assert!(validate(&schema, &instance).is_ok());
}

#[test]
fn validation_failure_lists_each_violation() {
    let schema = json(r#"{"type": "object", "required": ["name"], "properties": {"name": {"type": "string"}}}"#);
    match validate(&schema, &json("{}")) {
        Err(SchemaError::ValidationFailed(errors)) => {
            assert_eq!(errors.len(), 1);
            assert!(errors[0].contains("name"), "{:?}", errors);
        },
        other => panic!("expected a validation failure, got {other:?}"),
    }
}

#[test]
fn schema_that_does_not_compile_is_reported() {
    let schema = json(r#"{"type": 12}"#);
    match validate(&schema, &json("{}")) {
        Err(SchemaError::InvalidSchema(message)) => assert!(!message.is_empty()),
        other => panic!("expected an invalid schema, got {other:?}"),
    }
}

#[test]
fn json_is_kept_compact() {
    assert_eq!(json(r#"{ "b" : 1,  "a": [ true, null ] }"#).as_str(), r#"{"a":[true,null],"b":1}"#);
    assert_eq!(Json::null().as_str(), "null");
    assert!(Json::parse("not json").is_err());
    assert!(Json::parse("").is_err());
}

#[test]
fn json_pretty_printing() {
    assert_eq!(json(r#"{"a":1}"#).to_pretty_string(), "{\n  \"a\": 1\n}");
}

fn action(id: &str, caps: Vec<Capability>) -> ActionDef {
    ActionDef {
        id: id.into(),
        title: "Title".into(),
        description: "Does things".into(),
        input_schema: json(r#"{"type":"object"}"#),
        output_schema: json(r#"{"type":"object"}"#),
        kind: ActionKind::Mutating,
        approval: ApprovalClass::NoneRequired,
        tags: vec![],
        capabilities: caps,
    }
}

fn manifest(id: &str, actions: Vec<ActionDef>, caps: Vec<Capability>) -> PluginManifest {
    PluginManifest {
        plugin: PluginMeta {
            id: id.into(),
            name: "Test".into(),
            version: "0.1.0".into(),
            author: "test".into(),
            description: "test".into(),
            runtime_compat: default_runtime_compat(),
        },
        actions,
        capabilities: caps,
    }
}

fn validation_message(m: &PluginManifest) -> String {
    match m.validate() {
        Err(ManifestError::Validation(msg)) => msg,
        other => panic!("expected a validation error, got {other:?}"),
    }
}

#[test]
fn manifest_with_declared_capabilities_is_valid() {
    let m = manifest("test", vec![action("a", vec![Capability::Clock])], vec![Capability::Clock]);
    assert!(m.validate().is_ok());
    assert_eq!(default_runtime_compat(), "0.1");
}

#[test]
fn manifest_rules_are_checked_in_order() {
    assert_eq!(validation_message(&manifest("", vec![], vec![])), "plugin.id is required");
    let mut m = manifest("test", vec![], vec![]);
    m.plugin.name = String::new();
    assert_eq!(validation_message(&m), "plugin.name is required");
    let mut m = manifest("test", vec![], vec![]);
    m.plugin.version = String::new();
    assert_eq!(validation_message(&m), "plugin.version is required");
    let m = manifest("test", vec![action("", vec![Capability::Secrets])], vec![]);
    assert_eq!(validation_message(&m), "action.id is required for all actions");
}

#[test]
fn undeclared_action_capability_is_named() {
    let m = manifest(
        "test",
        vec![
            action("ok", vec![Capability::Clock]),
            action("do-stuff", vec![Capability::Clock, Capability::NetworkFetch, Capability::Secrets]),
        ],
        vec![Capability::Clock],
    );
    let msg = validation_message(&m);
    assert_eq!(msg, "action 'do-stuff' requests capability 'network-fetch' not declared at plugin level");
    let err = m.validate().unwrap_err();
    assert!(err.to_string().contains("network-fetch"));
    assert_eq!(
        err.to_string(),
        "manifest validation failed: action 'do-stuff' requests capability 'network-fetch' not declared at plugin level"
    );
}

#[test]
fn find_action_returns_the_first_with_the_id() {
    let mut second = action("greet", vec![]);
    second.title = "Second".into();
    let m = manifest("test", vec![action("other", vec![]), action("greet", vec![]), second], vec![]);
    assert_eq!(m.find_action("greet").unwrap().title, "Title");
    assert!(m.find_action("missing").is_none());
    assert_eq!(m.all_capabilities(), &[] as &[Capability]);
    let m = manifest("test", vec![], vec![Capability::Events]);
    assert_eq!(m.all_capabilities(), &[Capability::Events]);
}

#[test]
fn manifest_error_messages() {
    let parse_error = toml::from_str::<toml::Table>("name = ").unwrap_err();
    let text = ManifestError::Parse(parse_error).to_string();
    assert!(text.starts_with("failed to parse manifest: "));
    assert!(text.len() > "failed to parse manifest: ".len());
    assert_eq!(
        ManifestError::Validation("plugin id cannot be empty".to_string()).to_string(),
        "manifest validation failed: plugin id cannot be empty"
    );
}

#[test]
fn reject_empty_plugin_id() {
    let m = manifest("", vec![], vec![]);
    assert!(m.validate().is_err());
}

#[test]
fn reject_undeclared_action_capability() {
    let mut stuff = action("do-stuff", vec![Capability::NetworkFetch]);
    stuff.title = "Do Stuff".into();
    stuff.description = "Does stuff".into();
    let m = manifest("test", vec![stuff], vec![]);
    let err = m.validate().unwrap_err();
    assert!(
        err.to_string().contains("network-fetch"),
        "error should mention the undeclared capability: {}",
        err.to_string()
    );
}

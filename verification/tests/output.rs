use rusty::action::{ActionDef, ActionKind, ApprovalClass};
use rusty::capability::Capability;
use rusty::invocation::{ActionError, Invocation, InvocationState};
use rusty::json::Json;
use rusty::manifest::{PluginManifest, PluginMeta};
use rusty::render::{
    action_detail_lines, inspect_lines, invocation_result_lines, plugin_summary_lines, trace_event_spans, trace_lines, Span,
    Style,
};
use rusty::scaffold::{BuildProfile, PluginScaffold};
use rusty::trace::TraceEventKind;

fn text(line: &[Span]) -> String {
    line.iter().map(|s| s.text.as_str()).collect()
}

fn json(t: &str) -> Json {
    Json::parse(t).unwrap()
}

fn greet() -> ActionDef {
    ActionDef {
        id: "greet".into(),
        title: "Greet".into(),
        description: "Returns a personalized greeting".into(),
        input_schema: json(r#"{"type":"object"}"#),
        output_schema: json(r#"{"type":"string"}"#),
        kind: ActionKind::ReadOnly,
        approval: ApprovalClass::NoneRequired,
        tags: vec!["demo".into(), "greeting".into()],
        capabilities: vec![Capability::Clock],
    }
}

fn manifest() -> PluginManifest {
    PluginManifest {
        plugin: PluginMeta {
            id: "hello-world".into(),
            name: "Hello World".into(),
            version: "0.1.0".into(),
            author: "Tyler Gibbs".into(),
            description: "A greeting plugin".into(),
            runtime_compat: "0.1".into(),
        },
        actions: vec![greet()],
        capabilities: vec![Capability::Clock, Capability::Events],
    }
}

#[test]
fn trace_event_lines() {
    let line = trace_event_spans(&TraceEventKind::ExecutionSucceeded { duration_ms: 42 });
    assert_eq!(text(&line), "done (42ms)");
    assert_eq!(line[0].style, Style::GreenBold);
    assert_eq!(line[2].style, Style::Dimmed);
    let line = trace_event_spans(&TraceEventKind::PolicyDenied { rule: "r".into(), reason: "why".into() });
    assert_eq!(text(&line), "policy: denied (r) why");
    let line = trace_event_spans(&TraceEventKind::ExecutionFailed { error_code: "e".into(), message: "m".into() });
    assert_eq!(text(&line), "failed [e] m");
    let line = trace_event_spans(&TraceEventKind::CustomEvent { event_type: "t".into(), payload: json(r#"{"k": "v"}"#) });
    assert_eq!(text(&line), r#"event: t {"k":"v"}"#);
    let line = trace_event_spans(&TraceEventKind::ActionDiscovered { plugin_id: "p".into(), action_id: "a".into() });
    assert_eq!(text(&line), "discovered p/a");
    let line = trace_event_spans(&TraceEventKind::ExecutionTimedOut { timeout_ms: 5000 });
    assert_eq!(text(&line), "timed out after 5000ms");
}

#[test]
fn plugin_summary() {
    let lines = plugin_summary_lines(&manifest());
    let texts: Vec<String> = lines.iter().map(|l| text(l)).collect();
    assert_eq!(
        texts,
        vec![
            "  Hello World v0.1.0 — A greeting plugin",
            "  id: hello-world",
            "  capabilities: clock, events",
            "  actions: 1",
            "    - greet [read-only] Greet",
        ]
    );
    assert_eq!(lines[4][5].style, Style::Green);
}

#[test]
fn action_detail() {
    let lines = action_detail_lines(&greet());
    let texts: Vec<String> = lines.iter().map(|l| text(l)).collect();
    assert_eq!(texts[0], "Action: Greet (greet)");
    assert_eq!(texts[1], "  description: Returns a personalized greeting");
    assert_eq!(texts[2], "  kind: read-only");
    assert_eq!(texts[3], "  approval: none-required");
    assert_eq!(texts[4], "  tags: demo, greeting");
    assert_eq!(texts[5], "  capabilities: clock");
    assert_eq!(texts[6], "  input schema: {\n  \"type\": \"object\"\n}");
    assert_eq!(texts[7], "  output schema: {\n  \"type\": \"string\"\n}");
    assert_eq!(texts.len(), 8);
}

#[test]
fn inspection_lines() {
    let lines = inspect_lines(&manifest());
    let texts: Vec<String> = lines.iter().map(|l| text(l)).collect();
    assert_eq!(texts[0], "Plugin: Hello World (hello-world)");
    assert_eq!(texts[3], "  description: A greeting plugin");
    assert_eq!(texts[4], "  runtime-compat: 0.1");
    assert_eq!(texts[5], "  capabilities: clock, events");
    assert_eq!(texts[6], "");
    assert_eq!(texts[7], "Actions (1):");
    assert_eq!(texts[8], "");
    assert_eq!(texts[9], "Action: Greet (greet)");
    let mut bare = manifest();
    bare.capabilities.clear();
    assert_eq!(text(&inspect_lines(&bare)[5]), "  capabilities: none");
}

#[test]
fn invocation_outcome_and_trace() {
    let mut inv = Invocation::new("p".into(), "a".into(), json("{}"));
    inv.record_trace(TraceEventKind::ValidationPassed);
    inv.finalize_error(ActionError { code: "boom".into(), message: "it broke".into(), details: Some(json(r#"{"x":1}"#)) });
    let lines = invocation_result_lines(&inv);
    let texts: Vec<String> = lines.iter().map(|l| text(l)).collect();
    assert!(texts[0].starts_with("Run: "));
    assert_eq!(texts[0].len(), "Run: ".len() + 36);
    assert_eq!(texts[1], "  plugin: p");
    assert_eq!(texts[2], "  action: a");
    assert_eq!(texts[3], "  state: failed");
    assert_eq!(texts[4], "  error: [boom] it broke");
    assert_eq!(texts[5], "  details: {\"x\":1}");
    assert_eq!(lines[3][3].style, Style::RedBold);

    let lines = trace_lines(&inv);
    let texts: Vec<String> = lines.iter().map(|l| text(l)).collect();
    assert!(texts[0].starts_with("Trace for run "));
    assert_eq!(texts[1], "  plugin: p action: a");
    assert_eq!(texts[2], "  state: failed");
    assert_eq!(texts[3], "");
    assert!(texts[4].ends_with("] validation passed"));
    assert_eq!(texts[4].len(), "  [".len() + "HH:MM:SS.mmm".len() + "] validation passed".len());
    assert!(texts[5].ends_with("] failed [boom] it broke"));
    assert_eq!(texts.len(), 6);
    assert_eq!(inv.state, InvocationState::Failed);
}

#[test]
fn new_plugin_project_files() {
    let files = PluginScaffold::for_plugin("my-plugin");
    assert!(files.cargo_toml.starts_with("[package]\nname = \"my_plugin\"\n"));
    assert!(files.manifest.starts_with("[plugin]\nid = \"my-plugin\"\nname = \"my-plugin\"\n"));
    assert!(files.lib_rs.contains("id: \"my-plugin\".into(),\n            name: \"my-plugin\".into(),"));
    assert!(!files.lib_rs.contains("$$PLUGIN_NAME$$"));
    let release = BuildProfile::for_build(false);
    assert_eq!(release.cargo_profile, "release");
    assert_eq!(release.output_dir, "target/wasm32-wasip2/release");
    let debug = BuildProfile::for_build(true);
    assert_eq!(debug.cargo_profile, "dev");
    assert_eq!(debug.output_dir, "target/wasm32-wasip2/debug");
}

#[test]
fn run_ids_are_hyphenated_lower_case_hex() {
    let mut inv = Invocation::new("p".into(), "a".into(), json("{}"));
    inv.id = 0x67e5504410b1426f9247bb680e5fe0c8;
    assert_eq!(text(&invocation_result_lines(&inv)[0]), "Run: 67e55044-10b1-426f-9247-bb680e5fe0c8");
    inv.id = 0;
    assert_eq!(text(&trace_lines(&inv)[0]), "Trace for run 00000000-0000-0000-0000-000000000000");
}

#[test]
fn event_times_are_utc_times_of_day() {
    let mut inv = Invocation::new("p".into(), "a".into(), json("{}"));
    let stamps: [i64; 8] = [
        3_723_004_000,
        -1,
        86_400_000_000 + 999,
        i64::MAX,
        -8_334_601_228_800_000_000,
        -8_334_601_228_800_000_001,
        8_210_266_876_799_999_999,
        8_210_266_876_800_000_000,
    ];
    for stamp in stamps {
        inv.record_trace(TraceEventKind::ValidationPassed);
        inv.trace.events.last_mut().unwrap().timestamp = stamp;
    }
    let texts: Vec<String> = trace_lines(&inv).iter().map(|l| text(l)).collect();
    assert_eq!(texts[4], "  [01:02:03.004] validation passed");
    assert_eq!(texts[5], "  [23:59:59.999] validation passed");
    assert_eq!(texts[6], "  [00:00:00.000] validation passed");
    assert_eq!(texts[7], "  [] validation passed");
    assert_eq!(texts[8], "  [00:00:00.000] validation passed");
    assert_eq!(texts[9], "  [] validation passed");
    assert_eq!(texts[10], "  [23:59:59.999] validation passed");
    assert_eq!(texts[11], "  [] validation passed");
}

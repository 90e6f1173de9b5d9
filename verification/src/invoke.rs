//! The invocation lifecycle. Every request runs through the same steps:
//!
//! requested → validated → policy-evaluated → approved → scheduled → started → completed
//!
//! Input that breaks the action's schema fails before the policy is asked;
//! a policy that denies, or that asks for an approval, fails the invocation
//! before anything runs; and a run ends completed or failed. The decisions are
//! made here; running the plugin itself is the caller's part, between
//! `begin_invocation` and `conclude`.

use vstd::prelude::*;
use vstd::string::StringExecFns;

use crate::action::ActionDef;
use crate::error::{EngineError, SchemaError};
use crate::invocation::{same_request, ActionError, ActionErrorView, Invocation, InvocationResult, InvocationState};
use crate::json::{json_compact, Json};
use crate::manifest::{action_index, PluginManifest};
use crate::policy::{PolicyConfig, PolicyEffect};
use crate::policy_engine::{config_decision, ContextView, DecisionView, PolicyContext, PolicyEngine};
use crate::schema::{schema_outcome, validate, SchemaErrorView};
use crate::text::{join, texts};
use crate::trace::{event_views, EventView, TraceEvent, TraceEventKind};

verus! {

/// What the policy engine is told of `action`, invoked as `action_id` on `plugin_id`.
pub open spec fn action_context(plugin_id: Seq<char>, action_id: Seq<char>, action: ActionDef) -> ContextView {
    ContextView {
        plugin_id,
        action_id,
        action_kind: action.kind,
        capabilities: action.capabilities@,
        tags: texts(action.tags@),
    }
}

/// The rule named in the trace for a decision: the matched rule, else `default`.
pub open spec fn decision_rule(d: DecisionView) -> Seq<char> {
    match d.matched_rule {
        Some(r) => r,
        None => "default"@,
    }
}

/// The message of an invocation held for an approval.
pub open spec fn approval_message(reason: Seq<char>) -> Seq<char> {
    "action requires approval (not yet implemented): "@ + reason
}

/// The reason recorded in the trace for an input refused by a schema: the
/// schema error's own message.
pub open spec fn schema_message(e: SchemaErrorView) -> Seq<char> {
    match e {
        SchemaErrorView::InvalidSchema(m) => "invalid JSON schema: "@ + m,
        SchemaErrorView::ValidationFailed(errs) => "validation failed: "@ + crate::text::joined(errs, "; "@),
    }
}

/// The message of the `validation_failed` error for an input refused by a
/// schema: the violations themselves, joined by `; ` (or the message of a
/// schema that cannot be used).
pub open spec fn refusal_message(e: SchemaErrorView) -> Seq<char> {
    match e {
        SchemaErrorView::InvalidSchema(m) => "invalid JSON schema: "@ + m,
        SchemaErrorView::ValidationFailed(errs) => crate::text::joined(errs, "; "@),
    }
}

/// What admission decides for a request.
pub enum Plan {
    /// The plugin has no such action.
    UnknownAction,
    /// The invocation fails with this error, after these events.
    Refuse { code: Seq<char>, message: Seq<char>, events: Seq<EventView> },
    /// The invocation is scheduled to run, after these events.
    Run { events: Seq<EventView> },
}

/// The plan for invoking `action_id` on the plugin of `manifest` with `input`
/// under `policy`: the action must exist; its input schema must accept the
/// input; then the policy decides.
pub open spec fn admission_plan(manifest: PluginManifest, action_id: Seq<char>, input: Seq<char>, policy: PolicyConfig) -> Plan {
    match action_index(manifest.actions@, action_id) {
        None => Plan::UnknownAction,
        Some(i) => {
            let action = manifest.actions@[i];
            let requested = EventView::InvocationRequested { action_id };
            match schema_outcome(action.input_schema@, input) {
                Some(e) => {
                    let msg = refusal_message(e);
                    Plan::Refuse {
                        code: "validation_failed"@,
                        message: msg,
                        events: seq![
                            requested,
                            EventView::ValidationFailed { reason: schema_message(e) },
                            EventView::ExecutionFailed { error_code: "validation_failed"@, message: msg },
                        ],
                    }
                },
                None => {
                    let d = config_decision(policy, action_context(manifest.plugin.id@, action_id, action));
                    let rule = decision_rule(d);
                    match d.effect {
                        PolicyEffect::Allow => Plan::Run {
                            events: seq![requested, EventView::ValidationPassed, EventView::PolicyAllowed { rule }],
                        },
                        PolicyEffect::Deny => Plan::Refuse {
                            code: "policy_denied"@,
                            message: d.reason,
                            events: seq![
                                requested,
                                EventView::ValidationPassed,
                                EventView::PolicyDenied { rule, reason: d.reason },
                                EventView::ExecutionFailed { error_code: "policy_denied"@, message: d.reason },
                            ],
                        },
                        PolicyEffect::RequireApproval => Plan::Refuse {
                            code: "approval_required"@,
                            message: approval_message(d.reason),
                            events: seq![
                                requested,
                                EventView::ValidationPassed,
                                EventView::PolicyRequiresApproval { rule },
                                EventView::ExecutionFailed {
                                    error_code: "approval_required"@,
                                    message: approval_message(d.reason),
                                },
                            ],
                        },
                    }
                },
            }
        },
    }
}

/// An action is scheduled to run exactly when the plugin has it, its input
/// passes the action's input schema, and the policy allows it.
pub proof fn law_runs_only_when_admitted(manifest: PluginManifest, action_id: Seq<char>, input: Seq<char>, policy: PolicyConfig)
    ensures
        admission_plan(manifest, action_id, input, policy) is Run <==> match action_index(manifest.actions@, action_id) {
            Some(i) => {
                &&& schema_outcome(manifest.actions@[i].input_schema@, input) is None
                &&& config_decision(policy, action_context(manifest.plugin.id@, action_id, manifest.actions@[i])).effect
                    == PolicyEffect::Allow
            },
            None => false,
        },
{
}

/// Input that breaks the action's schema is refused with `validation_failed`
/// before the policy is asked: the plan is the same under any two policies.
pub proof fn law_invalid_input_refused_before_policy(
    manifest: PluginManifest,
    action_id: Seq<char>,
    input: Seq<char>,
    policy: PolicyConfig,
    other: PolicyConfig,
)
    requires
        action_index(manifest.actions@, action_id) matches Some(i)
            && schema_outcome(manifest.actions@[i].input_schema@, input) is Some,
    ensures
        admission_plan(manifest, action_id, input, policy) matches Plan::Refuse { code, message, events }
            && code == "validation_failed"@,
        admission_plan(manifest, action_id, input, policy) == admission_plan(manifest, action_id, input, other),
{
}

/// A run that returned JSON output completes the invocation with exactly that
/// output (compacted) and the run's duration; every other run fails it: a
/// timeout with code `timeout` after an `ExecutionTimedOut` event carrying the
/// limit, a cancellation with code `cancelled` after an `ExecutionCancelled`
/// event, and anything else with code `execution_error` and no extra event.
pub proof fn law_run_outcomes(run: Result<GuestRun, EngineError>)
    ensures
        run_ending(run) is Success <==> (run matches Ok(g) && (g.reply matches GuestReply::Output(t) && json_compact(t@) is Ok)),
        run matches Ok(g) ==> (g.reply matches GuestReply::Output(t) ==> (json_compact(t@) matches Ok(c) ==> (run_ending(run)
            == (Ending::Success { output: c, duration_ms: g.duration_ms })))),
        run matches Err(EngineError::Timeout(ms)) ==> (run_ending(run) matches Ending::Failure { code, message, marker }
            && code == "timeout"@ && marker == Some(EventView::ExecutionTimedOut { timeout_ms: ms })),
        run matches Err(EngineError::Cancelled) ==> (run_ending(run) matches Ending::Failure { code, message, marker }
            && code == "cancelled"@ && marker == Some(EventView::ExecutionCancelled)),
        (run matches Ok(g) && g.reply is Error) ==> (run_ending(run) matches Ending::Failure { code, message, marker }
            && code == "execution_error"@ && marker is None),
        run matches Err(e) ==> (!(e is Timeout) && !(e is Cancelled) ==> (run_ending(run) matches Ending::Failure {
            code,
            message,
            marker,
        } && code == "execution_error"@ && marker is None && message == e.message())),
{
}

/// The outcome of admission for a request that names a known action.
pub enum Admission {
    /// The invocation is over (refused) and nothing is to run.
    Settled(Invocation),
    /// The invocation is scheduled: the plugin is to run it.
    Scheduled(Invocation),
}

impl Admission {
    /// The invocation, whichever way admission went.
    pub open spec fn invocation(self) -> Invocation {
        match self {
            Admission::Settled(inv) => inv,
            Admission::Scheduled(inv) => inv,
        }
    }
}

/// Takes in a request to run `action_id` on the plugin of `manifest` with
/// `input`, under the policy of `policy`: creates the invocation, checks the
/// input against the action's schema, and asks the policy, recording each step
/// in the trace. Fails with `ActionNotFound` when the plugin has no such action.
pub fn begin_invocation(manifest: &PluginManifest, action_id: &str, input: Json, policy: &PolicyEngine) -> (r: Result<Admission, EngineError>)
    ensures
        match admission_plan(*manifest, action_id@, input@, policy.policy()) {
            Plan::UnknownAction => r matches Err(EngineError::ActionNotFound { plugin_id, action_id: a })
                && plugin_id@ == manifest.plugin.id@ && a@ == action_id@,
            Plan::Refuse { code, message, events } => r matches Ok(Admission::Settled(inv)) && {
                &&& inv.state == InvocationState::Failed
                &&& inv.result matches Some(InvocationResult::Error(e)) && e@ == (ActionErrorView { code, message, details: None })
                &&& inv.events() == events
            },
            Plan::Run { events } => r matches Ok(Admission::Scheduled(inv)) && {
                &&& inv.state == InvocationState::Scheduled
                &&& inv.result is None
                &&& inv.events() == events
            },
        },
        r matches Ok(a) ==> {
            &&& a.invocation().plugin_id@ == manifest.plugin.id@
            &&& a.invocation().action_id@ == action_id@
            &&& a.invocation().input == input
            &&& a.invocation().trace_consistent()
        },
{
    let mut inv = Invocation::new(manifest.plugin.id.clone(), String::from_str(action_id), input);
    inv.record_trace(TraceEventKind::InvocationRequested { action_id: String::from_str(action_id) });
    let ghost start = inv;
    let action = match manifest.find_action(action_id) {
        Some(a) => a,
        None => {
            return Err(EngineError::ActionNotFound {
                plugin_id: manifest.plugin.id.clone(),
                action_id: String::from_str(action_id),
            });
        },
    };
    let ghost i = action_index(manifest.actions@, action_id@)->0;
    match validate(&action.input_schema, &inv.input) {
        Err(e) => {
            let reason = e.to_string();
            let msg = match &e {
                SchemaError::ValidationFailed(errs) => join(errs, "; "),
                SchemaError::InvalidSchema(_) => e.to_string(),
            };
            inv.record_trace(TraceEventKind::ValidationFailed { reason });
            inv.finalize_error(ActionError {
                code: String::from_str("validation_failed"),
                message: msg,
                details: None,
            });
            assert(inv.events() =~= seq![
                EventView::InvocationRequested { action_id: action_id@ },
                EventView::ValidationFailed { reason: schema_message(e@) },
                EventView::ExecutionFailed { error_code: "validation_failed"@, message: refusal_message(e@) },
            ]);
            return Ok(Admission::Settled(inv));
        },
        Ok(()) => {},
    }
    inv.transition(InvocationState::Validated);
    inv.record_trace(TraceEventKind::ValidationPassed);
    let ctx = PolicyContext {
        plugin_id: manifest.plugin.id.clone(),
        action_id: String::from_str(action_id),
        action_kind: action.kind,
        capabilities: action.capabilities.clone(),
        tags: action.tags.clone(),
    };
    assert(ctx.capabilities@ == action.capabilities@);
    assert(texts(ctx.tags@) =~= texts(action.tags@)) by {
        assert forall|k: int| 0 <= k < ctx.tags@.len() implies ctx.tags@[k]@ == action.tags@[k]@ by {
            assert(cloned::<String>(action.tags@[k], ctx.tags@[k]));
        }
    }
    let decision = policy.evaluate(&ctx);
    inv.transition(InvocationState::PolicyEvaluated);
    let rule = match &decision.matched_rule {
        Some(r) => r.clone(),
        None => String::from_str("default"),
    };
    match decision.effect {
        PolicyEffect::Allow => {
            inv.record_trace(TraceEventKind::PolicyAllowed { rule });
            inv.transition(InvocationState::Approved);
        },
        PolicyEffect::Deny => {
            inv.record_trace(TraceEventKind::PolicyDenied { rule, reason: decision.reason.clone() });
            inv.transition(InvocationState::Denied);
            inv.finalize_error(ActionError {
                code: String::from_str("policy_denied"),
                message: decision.reason,
                details: None,
            });
            return Ok(Admission::Settled(inv));
        },
        PolicyEffect::RequireApproval => {
            inv.record_trace(TraceEventKind::PolicyRequiresApproval { rule });
            inv.transition(InvocationState::Denied);
            let mut message = String::from_str("action requires approval (not yet implemented): ");
            message.append(decision.reason.as_str());
            inv.finalize_error(ActionError {
                code: String::from_str("approval_required"),
                message,
                details: None,
            });
            return Ok(Admission::Settled(inv));
        },
    }
    inv.transition(InvocationState::Scheduled);
    Ok(Admission::Scheduled(inv))
}

/// Marks the start of the run: state `Started` and an `ExecutionStarted` event.
pub fn start_execution(inv: &mut Invocation)
    ensures
        same_request(*old(inv), *final(inv)),
        final(inv).state == InvocationState::Started,
        final(inv).result == old(inv).result,
        final(inv).events() == old(inv).events().push(EventView::ExecutionStarted),
        old(inv).trace_consistent() ==> final(inv).trace_consistent(),
{
    inv.transition(InvocationState::Started);
    inv.record_trace(TraceEventKind::ExecutionStarted);
}

/// What a plugin's `invoke` export answered: its output as JSON text, or an error.
#[derive(Debug, Clone)]
pub enum GuestReply {
    Output(String),
    Error { code: String, message: String, details: Option<String> },
}

/// A run of the plugin that returned: its reply and how long it took.
#[derive(Debug, Clone)]
pub struct GuestRun {
    pub reply: GuestReply,
    pub duration_ms: u64,
}

/// How an invocation ends after its run.
pub enum Ending {
    Success { output: Seq<char>, duration_ms: u64 },
    /// Failed with this code and message, after the `marker` event if any.
    Failure { code: Seq<char>, message: Seq<char>, marker: Option<EventView> },
}

/// How a run ends: a reply that is JSON completes the invocation with it as
/// output; a reply that is not JSON, an error reply and a failed run fail it
/// (with code `timeout` or `cancelled` for those two failures, after an event
/// that says so, and `execution_error` otherwise).
pub open spec fn run_ending(run: Result<GuestRun, EngineError>) -> Ending {
    match run {
        Ok(g) => match g.reply {
            GuestReply::Output(text) => match json_compact(text@) {
                Ok(output) => Ending::Success { output, duration_ms: g.duration_ms },
                Err(e) => Ending::Failure {
                    code: "execution_error"@,
                    message: "output deserialization failed: "@ + e,
                    marker: None,
                },
            },
            GuestReply::Error { code, message, details } => Ending::Failure {
                code: "execution_error"@,
                message: EngineError::ActionError { code, message }.message(),
                marker: None,
            },
        },
        Err(e) => match e {
            EngineError::Timeout(ms) => Ending::Failure {
                code: "timeout"@,
                message: e.message(),
                marker: Some(EventView::ExecutionTimedOut { timeout_ms: ms }),
            },
            EngineError::Cancelled => Ending::Failure {
                code: "cancelled"@,
                message: e.message(),
                marker: Some(EventView::ExecutionCancelled),
            },
            _ => Ending::Failure { code: "execution_error"@, message: e.message(), marker: None },
        },
    }
}

/// The events of `before`, followed by those of the run's host calls, whether
/// the run returned or not.
pub open spec fn merged_events(before: Seq<EventView>, host_events: Seq<TraceEvent>) -> Seq<EventView> {
    before + event_views(host_events)
}

/// Whether every host event belongs to invocation `id`.
pub open spec fn host_events_belong(host_events: Seq<TraceEvent>, id: u128) -> bool {
    forall|i: int| 0 <= i < host_events.len() ==> (#[trigger] host_events[i]).invocation_id == Some(id)
}

/// The plugin's answer, read: its output and duration, or the engine error it amounts to.
fn read_reply(reply: GuestReply, duration_ms: u64) -> (r: Result<(Json, u64), EngineError>)
    ensures
        match reply {
            GuestReply::Output(text) => match json_compact(text@) {
                Ok(c) => r matches Ok((out, d)) && out@ == c && d == duration_ms,
                Err(e) => r matches Err(EngineError::Other(m)) && m@ == "output deserialization failed: "@ + e,
            },
            GuestReply::Error { code, message, details } =>
                r matches Err(EngineError::ActionError { code: c, message: m }) && c == code && m == message,
        },
{
    match reply {
        GuestReply::Output(text) => match Json::parse(text.as_str()) {
            Ok(output) => Ok((output, duration_ms)),
            Err(e) => {
                let mut m = String::from_str("output deserialization failed: ");
                m.append(e.as_str());
                Err(EngineError::Other(m))
            },
        },
        GuestReply::Error { code, message, details } => Err(EngineError::ActionError { code, message }),
    }
}

/// Ends the invocation after its run: merges the events `host_events` that the
/// run's host calls recorded (whatever the run's outcome), then completes the
/// invocation with the plugin's output or fails it (see `run_ending`).
pub fn conclude(inv: &mut Invocation, host_events: Vec<TraceEvent>, run: Result<GuestRun, EngineError>)
    ensures
        same_request(*old(inv), *final(inv)),
        final(inv).result is Some,
        final(inv).state == InvocationState::Completed || final(inv).state == InvocationState::Failed,
        match run_ending(run) {
            Ending::Success { output, duration_ms } => {
                &&& final(inv).state == InvocationState::Completed
                &&& final(inv).result matches Some(InvocationResult::Success(o)) && o@ == output
                &&& final(inv).events() == merged_events(old(inv).events(), host_events@).push(
                    EventView::ExecutionSucceeded { duration_ms },
                )
            },
            Ending::Failure { code, message, marker } => {
                &&& final(inv).state == InvocationState::Failed
                &&& final(inv).result matches Some(InvocationResult::Error(e))
                    && e@ == (ActionErrorView { code, message, details: None })
                &&& final(inv).events() == match marker {
                    Some(m) => merged_events(old(inv).events(), host_events@).push(m),
                    None => merged_events(old(inv).events(), host_events@),
                }.push(EventView::ExecutionFailed { error_code: code, message })
            },
        },
        old(inv).trace_consistent() && host_events_belong(host_events@, old(inv).id) ==> final(inv).trace_consistent(),
{
    let ghost before = *inv;
    let ghost hosted = host_events@;
    let mut host_events = host_events;
    inv.trace.events.append(&mut host_events);
    proof {
        assert(inv.events() =~= before.events() + event_views(hosted));
    }
    let outcome = match run {
        Ok(g) => read_reply(g.reply, g.duration_ms),
        Err(e) => Err(e),
    };
    match outcome {
        Ok((output, duration_ms)) => {
            inv.finalize_success(output, duration_ms);
        },
        Err(e) => {
            let code = match &e {
                EngineError::Timeout(ms) => {
                    inv.record_trace(TraceEventKind::ExecutionTimedOut { timeout_ms: *ms });
                    String::from_str("timeout")
                },
                EngineError::Cancelled => {
                    inv.record_trace(TraceEventKind::ExecutionCancelled);
                    String::from_str("cancelled")
                },
                _ => String::from_str("execution_error"),
            };
            let message = e.to_string();
            inv.finalize_error(ActionError { code, message, details: None });
        },
    }
}

} // verus!

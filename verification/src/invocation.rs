//! Invocations: one request to run an action, its state, result and trace.

use vstd::prelude::*;
use vstd::string::StringExecFns;

use crate::clock::{fresh_id, now_micros};
use crate::json::Json;
use crate::trace::{event_views, ExecutionTrace, TraceEventKind};

verus! {

/// Where an invocation stands in its lifecycle.
#[derive(Debug, Clone, Copy, PartialEq, Eq, Structural)]
pub enum InvocationState {
    Requested,
    Validated,
    PolicyEvaluated,
    Approved,
    Denied,
    Scheduled,
    Started,
    Completed,
    Failed,
    TimedOut,
    Cancelled,
}

impl InvocationState {
    /// The kebab-case name of the state.
    pub open spec fn name(self) -> Seq<char> {
        match self {
            InvocationState::Requested => "requested"@,
            InvocationState::Validated => "validated"@,
            InvocationState::PolicyEvaluated => "policy-evaluated"@,
            InvocationState::Approved => "approved"@,
            InvocationState::Denied => "denied"@,
            InvocationState::Scheduled => "scheduled"@,
            InvocationState::Started => "started"@,
            InvocationState::Completed => "completed"@,
            InvocationState::Failed => "failed"@,
            InvocationState::TimedOut => "timed-out"@,
            InvocationState::Cancelled => "cancelled"@,
        }
    }

    /// The kebab-case name of the state.
    pub fn as_str(&self) -> (s: &'static str)
        ensures
            s@ == self.name(),
    {
        match self {
            InvocationState::Requested => "requested",
            InvocationState::Validated => "validated",
            InvocationState::PolicyEvaluated => "policy-evaluated",
            InvocationState::Approved => "approved",
            InvocationState::Denied => "denied",
            InvocationState::Scheduled => "scheduled",
            InvocationState::Started => "started",
            InvocationState::Completed => "completed",
            InvocationState::Failed => "failed",
            InvocationState::TimedOut => "timed-out",
            InvocationState::Cancelled => "cancelled",
        }
    }

    /// The kebab-case name of the state, as an owned string.
    pub fn to_string(&self) -> (s: String)
        ensures
            s@ == self.name(),
    {
        String::from_str(self.as_str())
    }
}

/// An error an action ended with.
#[derive(Debug, Clone)]
pub struct ActionError {
    pub code: String,
    pub message: String,
    pub details: Option<Json>,
}

/// The content of an `ActionError`, as text.
pub struct ActionErrorView {
    pub code: Seq<char>,
    pub message: Seq<char>,
    pub details: Option<Seq<char>>,
}

impl View for ActionError {
    type V = ActionErrorView;

    open spec fn view(&self) -> ActionErrorView {
        ActionErrorView {
            code: self.code@,
            message: self.message@,
            details: match self.details {
                Some(d) => Some(d@),
                None => None,
            },
        }
    }
}

/// How an invocation ended.
#[derive(Debug, Clone)]
pub enum InvocationResult {
    Success(Json),
    Error(ActionError),
}

/// The content of an `InvocationResult`, as text.
pub enum ResultView {
    Success(Seq<char>),
    Error(ActionErrorView),
}

impl View for InvocationResult {
    type V = ResultView;

    open spec fn view(&self) -> ResultView {
        match self {
            InvocationResult::Success(v) => ResultView::Success(v@),
            InvocationResult::Error(e) => ResultView::Error(e@),
        }
    }
}

/// One request to run an action, with everything that happened to it.
/// Times are microseconds since the Unix epoch.
#[derive(Debug, Clone)]
pub struct Invocation {
    pub id: u128,
    pub plugin_id: String,
    pub action_id: String,
    pub input: Json,
    pub state: InvocationState,
    pub created_at: i64,
    pub updated_at: i64,
    pub result: Option<InvocationResult>,
    pub trace: ExecutionTrace,
}

/// Whether `b` is the same request as `a`: same id, plugin, action, input and
/// creation time, and a trace for the same invocation.
pub open spec fn same_request(a: Invocation, b: Invocation) -> bool {
    &&& b.id == a.id
    &&& b.plugin_id == a.plugin_id
    &&& b.action_id == a.action_id
    &&& b.input == a.input
    &&& b.created_at == a.created_at
    &&& b.trace.invocation_id == a.trace.invocation_id
    &&& b.trace.plugin_id == a.trace.plugin_id
    &&& b.trace.action_id == a.trace.action_id
}

impl Invocation {
    /// The kinds of the recorded events, in order, as text.
    pub open spec fn events(self) -> Seq<crate::trace::EventView> {
        event_views(self.trace.events@)
    }

    /// Whether the trace is this invocation's and all its events are too.
    pub open spec fn trace_consistent(self) -> bool {
        &&& self.trace.invocation_id == self.id
        &&& self.trace.events_belong()
    }

    /// A new invocation of `action_id` on `plugin_id` with `input`: a fresh
    /// random id, state `Requested`, no result and an empty trace.
    pub fn new(plugin_id: String, action_id: String, input: Json) -> (inv: Self)
        ensures
            inv.plugin_id == plugin_id,
            inv.action_id == action_id,
            inv.input == input,
            inv.state == InvocationState::Requested,
            inv.result is None,
            inv.created_at == inv.updated_at,
            inv.trace.plugin_id == plugin_id,
            inv.trace.action_id == action_id,
            inv.trace.events@.len() == 0,
            inv.trace_consistent(),
    {
        let id = fresh_id();
        let now = now_micros();
        let trace = ExecutionTrace::new(id, plugin_id.clone(), action_id.clone());
        Invocation {
            id,
            plugin_id,
            action_id,
            input,
            state: InvocationState::Requested,
            created_at: now,
            updated_at: now,
            result: None,
            trace,
        }
    }

    /// Moves the invocation to `state` and stamps the update time.
    pub fn transition(&mut self, state: InvocationState)
        ensures
            same_request(*old(self), *final(self)),
            final(self).state == state,
            final(self).result == old(self).result,
            final(self).trace.events == old(self).trace.events,
    {
        self.state = state;
        self.updated_at = now_micros();
    }

    /// Appends an event of kind `kind` to the trace.
    pub fn record_trace(&mut self, kind: TraceEventKind)
        ensures
            same_request(*old(self), *final(self)),
            final(self).state == old(self).state,
            final(self).result == old(self).result,
            final(self).trace.events@.drop_last() == old(self).trace.events@,
            final(self).trace.events@.last().kind == kind,
            final(self).events() == old(self).events().push(kind@),
            old(self).trace_consistent() ==> final(self).trace_consistent(),
    {
        self.trace.record(kind);
    }

    /// Ends the invocation successfully with `output`: state `Completed`, the
    /// output as result, and an `ExecutionSucceeded` event with the duration.
    pub fn finalize_success(&mut self, output: Json, duration_ms: u64)
        ensures
            same_request(*old(self), *final(self)),
            final(self).state == InvocationState::Completed,
            final(self).result == Some(InvocationResult::Success(output)),
            final(self).events() == old(self).events().push(
                crate::trace::EventView::ExecutionSucceeded { duration_ms },
            ),
            old(self).trace_consistent() ==> final(self).trace_consistent(),
    {
        self.result = Some(InvocationResult::Success(output));
        self.transition(InvocationState::Completed);
        self.record_trace(TraceEventKind::ExecutionSucceeded { duration_ms });
    }

    /// Ends the invocation with `error`: state `Failed`, the error as result, and
    /// an `ExecutionFailed` event with the error's code and message.
    pub fn finalize_error(&mut self, error: ActionError)
        ensures
            same_request(*old(self), *final(self)),
            final(self).state == InvocationState::Failed,
            final(self).result == Some(InvocationResult::Error(error)),
            final(self).events() == old(self).events().push(
                crate::trace::EventView::ExecutionFailed { error_code: error.code@, message: error.message@ },
            ),
            old(self).trace_consistent() ==> final(self).trace_consistent(),
    {
        let code = error.code.clone();
        let message = error.message.clone();
        self.result = Some(InvocationResult::Error(error));
        self.transition(InvocationState::Failed);
        self.record_trace(TraceEventKind::ExecutionFailed { error_code: code, message });
    }
}

} // verus!

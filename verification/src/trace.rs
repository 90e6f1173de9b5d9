//! Execution traces: the ordered events recorded while an invocation runs.

use vstd::prelude::*;

use crate::clock::now_micros;
use crate::json::Json;

verus! {

/// What happened, in one trace event.
#[derive(Debug, Clone)]
pub enum TraceEventKind {
    PluginLoaded { plugin_id: String },
    ActionDiscovered { plugin_id: String, action_id: String },
    InvocationRequested { action_id: String },
    ValidationPassed,
    ValidationFailed { reason: String },
    PolicyAllowed { rule: String },
    PolicyDenied { rule: String, reason: String },
    PolicyRequiresApproval { rule: String },
    ExecutionStarted,
    ExecutionSucceeded { duration_ms: u64 },
    ExecutionFailed { error_code: String, message: String },
    ExecutionTimedOut { timeout_ms: u64 },
    ExecutionCancelled,
    HostCallIssued { function: String },
    CustomEvent { event_type: String, payload: Json },
}

/// The content of a `TraceEventKind`, as text.
pub enum EventView {
    PluginLoaded { plugin_id: Seq<char> },
    ActionDiscovered { plugin_id: Seq<char>, action_id: Seq<char> },
    InvocationRequested { action_id: Seq<char> },
    ValidationPassed,
    ValidationFailed { reason: Seq<char> },
    PolicyAllowed { rule: Seq<char> },
    PolicyDenied { rule: Seq<char>, reason: Seq<char> },
    PolicyRequiresApproval { rule: Seq<char> },
    ExecutionStarted,
    ExecutionSucceeded { duration_ms: u64 },
    ExecutionFailed { error_code: Seq<char>, message: Seq<char> },
    ExecutionTimedOut { timeout_ms: u64 },
    ExecutionCancelled,
    HostCallIssued { function: Seq<char> },
    CustomEvent { event_type: Seq<char>, payload: Seq<char> },
}

impl View for TraceEventKind {
    type V = EventView;

    open spec fn view(&self) -> EventView {
        match self {
            TraceEventKind::PluginLoaded { plugin_id } => EventView::PluginLoaded { plugin_id: plugin_id@ },
            TraceEventKind::ActionDiscovered { plugin_id, action_id } =>
                EventView::ActionDiscovered { plugin_id: plugin_id@, action_id: action_id@ },
            TraceEventKind::InvocationRequested { action_id } => EventView::InvocationRequested { action_id: action_id@ },
            TraceEventKind::ValidationPassed => EventView::ValidationPassed,
            TraceEventKind::ValidationFailed { reason } => EventView::ValidationFailed { reason: reason@ },
            TraceEventKind::PolicyAllowed { rule } => EventView::PolicyAllowed { rule: rule@ },
            TraceEventKind::PolicyDenied { rule, reason } => EventView::PolicyDenied { rule: rule@, reason: reason@ },
            TraceEventKind::PolicyRequiresApproval { rule } => EventView::PolicyRequiresApproval { rule: rule@ },
            TraceEventKind::ExecutionStarted => EventView::ExecutionStarted,
            TraceEventKind::ExecutionSucceeded { duration_ms } => EventView::ExecutionSucceeded { duration_ms: *duration_ms },
            TraceEventKind::ExecutionFailed { error_code, message } =>
                EventView::ExecutionFailed { error_code: error_code@, message: message@ },
            TraceEventKind::ExecutionTimedOut { timeout_ms } => EventView::ExecutionTimedOut { timeout_ms: *timeout_ms },
            TraceEventKind::ExecutionCancelled => EventView::ExecutionCancelled,
            TraceEventKind::HostCallIssued { function } => EventView::HostCallIssued { function: function@ },
            TraceEventKind::CustomEvent { event_type, payload } =>
                EventView::CustomEvent { event_type: event_type@, payload: payload@ },
        }
    }
}

/// One recorded event: when it happened (microseconds since the Unix epoch),
/// the invocation it belongs to, and what happened.
#[derive(Debug, Clone)]
pub struct TraceEvent {
    pub timestamp: i64,
    pub invocation_id: Option<u128>,
    pub kind: TraceEventKind,
}

impl TraceEvent {
    /// An event of kind `kind` for `invocation_id`, stamped with the current time.
    pub fn new(invocation_id: Option<u128>, kind: TraceEventKind) -> (e: Self)
        ensures
            e.invocation_id == invocation_id,
            e.kind == kind,
    {
        TraceEvent { timestamp: now_micros(), invocation_id, kind }
    }
}

/// The kinds of a sequence of events, as text.
pub open spec fn event_views(events: Seq<TraceEvent>) -> Seq<EventView> {
    events.map_values(|e: TraceEvent| e.kind@)
}

/// The trace of one invocation: its events in the order they were recorded.
#[derive(Debug, Clone)]
pub struct ExecutionTrace {
    pub invocation_id: u128,
    pub plugin_id: String,
    pub action_id: String,
    pub events: Vec<TraceEvent>,
}

impl ExecutionTrace {
    /// Whether every event of the trace belongs to the trace's invocation.
    pub open spec fn events_belong(&self) -> bool {
        forall|i: int| 0 <= i < self.events@.len()
            ==> (#[trigger] self.events@[i]).invocation_id == Some(self.invocation_id)
    }

    /// An empty trace for one invocation of `action_id` on `plugin_id`.
    pub fn new(invocation_id: u128, plugin_id: String, action_id: String) -> (t: Self)
        ensures
            t.invocation_id == invocation_id,
            t.plugin_id == plugin_id,
            t.action_id == action_id,
            t.events@.len() == 0,
            t.events_belong(),
    {
        ExecutionTrace { invocation_id, plugin_id, action_id, events: Vec::new() }
    }

    /// Appends an event of kind `kind`, for this trace's invocation, after all
    /// the events recorded so far.
    pub fn record(&mut self, kind: TraceEventKind)
        ensures
            final(self).invocation_id == old(self).invocation_id,
            final(self).plugin_id == old(self).plugin_id,
            final(self).action_id == old(self).action_id,
            final(self).events@.len() == old(self).events@.len() + 1,
            final(self).events@.drop_last() == old(self).events@,
            final(self).events@.last().kind == kind,
            final(self).events@.last().invocation_id == Some(old(self).invocation_id),
            event_views(final(self).events@) == event_views(old(self).events@).push(kind@),
            old(self).events_belong() ==> final(self).events_belong(),
    {
        let e = TraceEvent::new(Some(self.invocation_id), kind);
        self.events.push(e);
        assert(self.events@.drop_last() =~= old(self).events@);
        assert(event_views(self.events@) =~= event_views(old(self).events@).push(kind@));
    }
}

} // verus!

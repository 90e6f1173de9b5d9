//! The host side of a running plugin: what its host calls do to the trace and
//! what they answer. The WASM store that holds this state, and the log output of
//! `log`, belong to the runtime around the library.

use vstd::prelude::*;
use vstd::string::StringExecFns;

use crate::json::{json_compact, Json};
use crate::trace::{event_views, EventView, ExecutionTrace, TraceEventKind};

verus! {

/// The value of the first pair in `pairs` whose key is `key`.
pub open spec fn config_lookup(pairs: Seq<(String, String)>, key: Seq<char>) -> Option<Seq<char>>
    decreases pairs.len(),
{
    if pairs.len() == 0 {
        None
    } else if pairs[0].0@ == key {
        Some(pairs[0].1@)
    } else {
        config_lookup(pairs.drop_first(), key)
    }
}

/// Whether no key occurs twice among `pairs`, as in a map.
pub open spec fn distinct_keys(pairs: Seq<(String, String)>) -> bool {
    forall|i: int, j: int| #![trigger pairs[i], pairs[j]] 0 <= i < j < pairs.len() ==> pairs[i].0@ != pairs[j].0@
}

/// A configuration with distinct keys answers, for each of its keys, the value
/// configured for it.
pub proof fn law_config_answers_configured_value(pairs: Seq<(String, String)>, i: int)
    requires
        distinct_keys(pairs),
        0 <= i < pairs.len(),
    ensures
        config_lookup(pairs, pairs[i].0@) == Some(pairs[i].1@),
    decreases i,
{
    if i > 0 {
        let rest = pairs.drop_first();
        assert(pairs[0].0@ != pairs[i].0@);
        assert(rest[i - 1] == pairs[i]);
        assert forall|a: int, b: int| #![trigger rest[a], rest[b]] 0 <= a < b < rest.len() implies rest[a].0@ != rest[b].0@ by {
            assert(rest[a] == pairs[a + 1]);
            assert(rest[b] == pairs[b + 1]);
        }
        law_config_answers_configured_value(rest, i - 1);
    }
}

/// A key that is not configured is answered with nothing.
pub proof fn law_unconfigured_key_has_no_value(pairs: Seq<(String, String)>, key: Seq<char>)
    requires
        forall|i: int| 0 <= i < pairs.len() ==> (#[trigger] pairs[i]).0@ != key,
    ensures
        config_lookup(pairs, key) is None,
    decreases pairs.len(),
{
    if pairs.len() > 0 {
        let rest = pairs.drop_first();
        assert(pairs[0].0@ != key);
        assert forall|i: int| 0 <= i < rest.len() implies (#[trigger] rest[i]).0@ != key by {
            assert(rest[i] == pairs[i + 1]);
        }
        law_unconfigured_key_has_no_value(rest, key);
    }
}

/// The payload recorded for an emitted event: the JSON it holds, else `null`.
pub open spec fn event_payload(payload: Seq<char>) -> Seq<char> {
    match json_compact(payload) {
        Ok(c) => c,
        Err(_) => "null"@,
    }
}

/// The value of the first pair in `pairs` whose key is `key`.
fn lookup_config(pairs: &Vec<(String, String)>, key: &str) -> (v: Option<String>)
    ensures
        match config_lookup(pairs@, key@) {
            Some(value) => v matches Some(s) && s@ == value,
            None => v is None,
        },
{
    let wanted = String::from_str(key);
    let mut i: usize = 0;
    assert(pairs@.skip(0) =~= pairs@);
    while i < pairs.len()
        invariant
            i <= pairs.len(),
            wanted@ == key@,
            config_lookup(pairs@, key@) == config_lookup(pairs@.skip(i as int), key@),
        decreases pairs.len() - i,
    {
        assert(pairs@.skip(i as int).drop_first() =~= pairs@.skip(i + 1));
        assert(pairs@.skip(i as int)[0] == pairs@[i as int]);
        if pairs[i].0 == wanted {
            return Some(pairs[i].1.clone());
        }
        i = i + 1;
    }
    assert(pairs@.skip(i as int) =~= Seq::<(String, String)>::empty());
    None
}

/// The state the host keeps for one run of a plugin.
pub struct HostState {
    pub invocation_id: u128,
    pub plugin_id: String,
    pub trace: ExecutionTrace,
    /// The configuration the plugin may read, as (key, value) pairs; no key
    /// occurs twice.
    pub config_values: Vec<(String, String)>,
}

impl HostState {
    /// The host state for a run of `action_id` on `plugin_id` in invocation
    /// `invocation_id`, with an empty trace and the configuration
    /// `config_values`, whose keys are distinct.
    pub fn new(
        invocation_id: u128,
        plugin_id: String,
        action_id: String,
        config_values: Vec<(String, String)>,
    ) -> (h: Self)
        requires
            distinct_keys(config_values@),
        ensures
            h.invocation_id == invocation_id,
            h.plugin_id == plugin_id,
            h.trace.invocation_id == invocation_id,
            h.trace.plugin_id == plugin_id,
            h.trace.action_id == action_id,
            h.trace.events@.len() == 0,
            h.config_values == config_values,
    {
        let trace = ExecutionTrace::new(invocation_id, plugin_id.clone(), action_id);
        HostState { invocation_id, plugin_id, trace, config_values }
    }

    /// Whether `self` is `old` with `event` appended to the trace.
    pub open spec fn recorded(old: HostState, new: HostState, event: EventView) -> bool {
        &&& new.invocation_id == old.invocation_id
        &&& new.plugin_id == old.plugin_id
        &&& new.config_values == old.config_values
        &&& new.trace.invocation_id == old.trace.invocation_id
        &&& new.trace.plugin_id == old.trace.plugin_id
        &&& new.trace.action_id == old.trace.action_id
        &&& new.trace.events@.len() == old.trace.events@.len() + 1
        &&& new.trace.events@.drop_last() == old.trace.events@
        &&& new.trace.events@.last().invocation_id == Some(old.trace.invocation_id)
        &&& event_views(new.trace.events@) == event_views(old.trace.events@).push(event)
        &&& (old.trace.events_belong() ==> new.trace.events_belong())
    }

    /// Appends an event of kind `kind` to the trace.
    pub fn record_trace(&mut self, kind: TraceEventKind)
        ensures
            HostState::recorded(*old(self), *final(self), kind@),
    {
        self.trace.record(kind);
    }

    /// The `log` host call: recorded in the trace as a host call.
    pub fn log(&mut self)
        ensures
            HostState::recorded(*old(self), *final(self), EventView::HostCallIssued { function: "log"@ }),
    {
        self.record_trace(TraceEventKind::HostCallIssued { function: String::from_str("log") });
    }

    /// The `get-config` host call: recorded in the trace, it answers the value
    /// configured for `key`, if any.
    pub fn get_config(&mut self, key: &str) -> (v: Option<String>)
        ensures
            HostState::recorded(*old(self), *final(self), EventView::HostCallIssued { function: "get_config"@ }),
            match config_lookup(old(self).config_values@, key@) {
                Some(value) => v matches Some(s) && s@ == value,
                None => v is None,
            },
    {
        self.record_trace(TraceEventKind::HostCallIssued { function: String::from_str("get_config") });
        lookup_config(&self.config_values, key)
    }

    /// The `emit-event` host call: records a custom event with `payload` as its
    /// JSON payload, or `null` when the payload is not JSON.
    pub fn emit_event(&mut self, event_type: String, payload: &str)
        ensures
            HostState::recorded(
                *old(self),
                *final(self),
                EventView::CustomEvent { event_type: event_type@, payload: event_payload(payload@) },
            ),
    {
        let value = match Json::parse(payload) {
            Ok(v) => v,
            Err(_) => Json::null(),
        };
        self.record_trace(TraceEventKind::CustomEvent { event_type, payload: value });
    }
}

} // verus!

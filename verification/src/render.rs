//! What the command line shows of plugins, actions, invocations and traces, as
//! lines of styled text. Painting the styles on a terminal is the caller's part.

use vstd::prelude::*;
use vstd::string::StringExecFns;

use crate::action::{ActionDef, ActionKind};
use crate::capability::Capability;
use crate::invocation::{Invocation, InvocationResult, InvocationState};
use crate::manifest::PluginManifest;
use crate::text::{decimal, decimal_string, join, joined, texts};
use crate::action::ApprovalClass;
use crate::clock::{id_text, time_of_day, time_of_day_text, uuid_text};
use crate::json::json_pretty;
use crate::trace::{event_views, EventView, TraceEvent, TraceEventKind};

verus! {

/// How a piece of text is painted.
#[derive(Debug, Clone, Copy, PartialEq, Eq, Structural)]
pub enum Style {
    Plain,
    Bold,
    Dimmed,
    Cyan,
    Green,
    Yellow,
    Red,
    CyanBold,
    GreenBold,
    YellowBold,
    RedBold,
}

/// A piece of text with its style.
#[derive(Debug, Clone)]
pub struct Span {
    pub text: String,
    pub style: Style,
}

impl View for Span {
    type V = (Seq<char>, Style);

    open spec fn view(&self) -> (Seq<char>, Style) {
        (self.text@, self.style)
    }
}

/// The content of a line of spans.
pub open spec fn line_view(line: Seq<Span>) -> Seq<(Seq<char>, Style)> {
    line.map_values(|s: Span| s@)
}

/// The content of several lines.
pub open spec fn lines_view(lines: Seq<Vec<Span>>) -> Seq<Seq<(Seq<char>, Style)>> {
    lines.map_values(|l: Vec<Span>| line_view(l@))
}

/// A plain span.
pub open spec fn plain(t: Seq<char>) -> (Seq<char>, Style) {
    (t, Style::Plain)
}

/// `items`, each in `style`, separated by plain `, `.
pub open spec fn listed(items: Seq<Seq<char>>, style: Style) -> Seq<(Seq<char>, Style)>
    decreases items.len(),
{
    if items.len() == 0 {
        Seq::empty()
    } else if items.len() == 1 {
        seq![(items[0], style)]
    } else {
        listed(items.drop_last(), style) + seq![plain(", "@), (items.last(), style)]
    }
}

fn span(text: &str, style: Style) -> (s: Span)
    ensures
        s@ == (text@, style),
{
    Span { text: String::from_str(text), style }
}

fn push(line: &mut Vec<Span>, text: &str, style: Style)
    ensures
        line_view(final(line)@) == line_view(old(line)@).push((text@, style)),
{
    line.push(span(text, style));
    assert(line_view(line@) =~= line_view(old(line)@).push((text@, style)));
}

fn push_span(line: &mut Vec<Span>, s: Span)
    ensures
        line_view(final(line)@) == line_view(old(line)@).push(s@),
{
    let ghost v = s@;
    line.push(s);
    assert(line_view(line@) =~= line_view(old(line)@).push(v));
}

fn push_owned(line: &mut Vec<Span>, text: String, style: Style)
    ensures
        line_view(final(line)@) == line_view(old(line)@).push((text@, style)),
{
    let ghost t = text@;
    line.push(Span { text, style });
    assert(line_view(line@) =~= line_view(old(line)@).push((t, style)));
}

/// `text` prefixed with `before` and followed by `after`.
fn wrapped(before: &str, text: &str, after: &str) -> (s: String)
    ensures
        s@ == before@ + text@ + after@,
{
    let mut s = String::from_str(before);
    s.append(text);
    s.append(after);
    s
}

/// `text` prefixed with `before`.
fn prefixed(before: &str, text: &str) -> (s: String)
    ensures
        s@ == before@ + text@,
{
    let mut s = String::from_str(before);
    s.append(text);
    s
}

/// Appends `items`, each in `style`, separated by plain `, `.
fn push_listed(line: &mut Vec<Span>, items: &Vec<String>, style: Style)
    ensures
        line_view(final(line)@) == line_view(old(line)@) + listed(texts(items@), style),
{
    let ghost all = texts(items@);
    let mut i: usize = 0;
    while i < items.len()
        invariant
            i <= items.len(),
            all == texts(items@),
            line_view(line@) == line_view(old(line)@) + listed(all.take(i as int), style),
        decreases items.len() - i,
    {
        proof {
            assert(all.take(i + 1).drop_last() =~= all.take(i as int));
            assert(all.take(i + 1).last() == items@[i as int]@);
        }
        if i != 0 {
            push(line, ", ", style_plain());
        } else {
            assert(all.take(0) =~= Seq::<Seq<char>>::empty());
            assert(all.take(1) =~= seq![items@[0]@]);
        }
        push(line, items[i].as_str(), style);
        proof {
            if i != 0 {
                assert(listed(all.take(i + 1), style) =~= listed(all.take(i as int), style) + seq![plain(", "@), (items@[i as int]@, style)]);
            }
        }
        i = i + 1;
        assert(line_view(line@) =~= line_view(old(line)@) + listed(all.take(i as int), style));
    }
    assert(all.take(items.len() as int) =~= all);
}

fn style_plain() -> (s: Style)
    ensures
        s == Style::Plain,
{
    Style::Plain
}

/// The spans of one trace event.
pub open spec fn event_spans(e: EventView) -> Seq<(Seq<char>, Style)> {
    match e {
        EventView::InvocationRequested { action_id } => seq![("invoke"@, Style::Cyan), plain(" "@), (action_id, Style::Bold)],
        EventView::ValidationPassed => seq![("validation passed"@, Style::Green)],
        EventView::ValidationFailed { reason } => seq![("validation failed:"@, Style::Red), plain(" "@ + reason)],
        EventView::PolicyAllowed { rule } =>
            seq![("policy: allowed"@, Style::Green), plain(" ("@), (rule, Style::Dimmed), plain(")"@)],
        EventView::PolicyDenied { rule, reason } => seq![
            ("policy: denied"@, Style::Red),
            plain(" ("@),
            (rule, Style::Dimmed),
            plain(") "@),
            (reason, Style::Dimmed),
        ],
        EventView::PolicyRequiresApproval { rule } =>
            seq![("policy: requires approval"@, Style::Yellow), plain(" ("@), (rule, Style::Dimmed), plain(")"@)],
        EventView::ExecutionStarted => seq![("execution started"@, Style::Dimmed)],
        EventView::ExecutionSucceeded { duration_ms } =>
            seq![("done"@, Style::GreenBold), plain(" "@), ("("@ + decimal(duration_ms as nat) + "ms)"@, Style::Dimmed)],
        EventView::ExecutionFailed { error_code, message } =>
            seq![("failed"@, Style::RedBold), plain(" ["@ + error_code + "] "@ + message)],
        EventView::ExecutionTimedOut { timeout_ms } =>
            seq![("timed out"@, Style::YellowBold), plain(" after "@ + decimal(timeout_ms as nat) + "ms"@)],
        EventView::ExecutionCancelled => seq![("cancelled"@, Style::YellowBold)],
        EventView::HostCallIssued { function } => seq![("host call:"@, Style::Dimmed), plain(" "@), (function, Style::Cyan)],
        EventView::CustomEvent { event_type, payload } => seq![
            ("event:"@, Style::Dimmed),
            plain(" "@),
            (event_type, Style::Cyan),
            plain(" "@),
            (payload, Style::Dimmed),
        ],
        EventView::PluginLoaded { plugin_id } => seq![("loaded"@, Style::Green), plain(" "@), (plugin_id, Style::Cyan)],
        EventView::ActionDiscovered { plugin_id, action_id } =>
            seq![("discovered"@, Style::Dimmed), plain(" "@), (plugin_id, Style::Cyan), plain("/"@ + action_id)],
    }
}

/// The spans of one trace event.
pub fn trace_event_spans(kind: &TraceEventKind) -> (line: Vec<Span>)
    ensures
        line_view(line@) == event_spans(kind@),
{
    let mut line: Vec<Span> = Vec::new();
    match kind {
        TraceEventKind::InvocationRequested { action_id } => {
            push(&mut line, "invoke", Style::Cyan);
            push(&mut line, " ", Style::Plain);
            push(&mut line, action_id.as_str(), Style::Bold);
        },
        TraceEventKind::ValidationPassed => {
            push(&mut line, "validation passed", Style::Green);
        },
        TraceEventKind::ValidationFailed { reason } => {
            push(&mut line, "validation failed:", Style::Red);
            push_owned(&mut line, prefixed(" ", reason.as_str()), Style::Plain);
        },
        TraceEventKind::PolicyAllowed { rule } => {
            push(&mut line, "policy: allowed", Style::Green);
            push(&mut line, " (", Style::Plain);
            push(&mut line, rule.as_str(), Style::Dimmed);
            push(&mut line, ")", Style::Plain);
        },
        TraceEventKind::PolicyDenied { rule, reason } => {
            push(&mut line, "policy: denied", Style::Red);
            push(&mut line, " (", Style::Plain);
            push(&mut line, rule.as_str(), Style::Dimmed);
            push(&mut line, ") ", Style::Plain);
            push(&mut line, reason.as_str(), Style::Dimmed);
        },
        TraceEventKind::PolicyRequiresApproval { rule } => {
            push(&mut line, "policy: requires approval", Style::Yellow);
            push(&mut line, " (", Style::Plain);
            push(&mut line, rule.as_str(), Style::Dimmed);
            push(&mut line, ")", Style::Plain);
        },
        TraceEventKind::ExecutionStarted => {
            push(&mut line, "execution started", Style::Dimmed);
        },
        TraceEventKind::ExecutionSucceeded { duration_ms } => {
            push(&mut line, "done", Style::GreenBold);
            push(&mut line, " ", Style::Plain);
            let d = decimal_string(*duration_ms);
            push_owned(&mut line, wrapped("(", d.as_str(), "ms)"), Style::Dimmed);
        },
        TraceEventKind::ExecutionFailed { error_code, message } => {
            push(&mut line, "failed", Style::RedBold);
            let mut t = wrapped(" [", error_code.as_str(), "] ");
            t.append(message.as_str());
            push_owned(&mut line, t, Style::Plain);
        },
        TraceEventKind::ExecutionTimedOut { timeout_ms } => {
            push(&mut line, "timed out", Style::YellowBold);
            let d = decimal_string(*timeout_ms);
            push_owned(&mut line, wrapped(" after ", d.as_str(), "ms"), Style::Plain);
        },
        TraceEventKind::ExecutionCancelled => {
            push(&mut line, "cancelled", Style::YellowBold);
        },
        TraceEventKind::HostCallIssued { function } => {
            push(&mut line, "host call:", Style::Dimmed);
            push(&mut line, " ", Style::Plain);
            push(&mut line, function.as_str(), Style::Cyan);
        },
        TraceEventKind::CustomEvent { event_type, payload } => {
            push(&mut line, "event:", Style::Dimmed);
            push(&mut line, " ", Style::Plain);
            push(&mut line, event_type.as_str(), Style::Cyan);
            push(&mut line, " ", Style::Plain);
            push(&mut line, payload.as_str(), Style::Dimmed);
        },
        TraceEventKind::PluginLoaded { plugin_id } => {
            push(&mut line, "loaded", Style::Green);
            push(&mut line, " ", Style::Plain);
            push(&mut line, plugin_id.as_str(), Style::Cyan);
        },
        TraceEventKind::ActionDiscovered { plugin_id, action_id } => {
            push(&mut line, "discovered", Style::Dimmed);
            push(&mut line, " ", Style::Plain);
            push(&mut line, plugin_id.as_str(), Style::Cyan);
            push_owned(&mut line, prefixed("/", action_id.as_str()), Style::Plain);
        },
    }
    assert(line_view(line@) =~= event_spans(kind@));
    line
}

/// The style of an action kind: green, yellow or red as it is more dangerous.
pub open spec fn kind_style(k: ActionKind) -> Style {
    match k {
        ActionKind::ReadOnly => Style::Green,
        ActionKind::Mutating => Style::Yellow,
        ActionKind::Destructive => Style::Red,
    }
}

fn kind_span(k: ActionKind) -> (s: Span)
    ensures
        s@ == (k.name(), kind_style(k)),
{
    let style = match k {
        ActionKind::ReadOnly => Style::Green,
        ActionKind::Mutating => Style::Yellow,
        ActionKind::Destructive => Style::Red,
    };
    span(k.as_str(), style)
}

/// The names of `caps`.
pub open spec fn capability_names(caps: Seq<Capability>) -> Seq<Seq<char>> {
    caps.map_values(|c: Capability| c.name())
}

fn names_of(caps: &Vec<Capability>) -> (names: Vec<String>)
    ensures
        texts(names@) == capability_names(caps@),
{
    let mut names: Vec<String> = Vec::new();
    let mut i: usize = 0;
    while i < caps.len()
        invariant
            i <= caps.len(),
            texts(names@) == capability_names(caps@.take(i as int)),
        decreases caps.len() - i,
    {
        let ghost prev = names@;
        let name = caps[i].to_string();
        names.push(name);
        proof {
            assert(names@ == prev.push(name));
            assert(texts(names@) =~= texts(prev).push(name@));
            assert(capability_names(caps@.take(i + 1)) =~= capability_names(caps@.take(i as int)).push(caps@[i as int].name()));
        }
        i = i + 1;
    }
    assert(caps@.take(caps.len() as int) =~= caps@);
    names
}

/// A line: two spaces, a dimmed label, a space and then `rest`.
pub open spec fn labelled(label: Seq<char>, rest: Seq<(Seq<char>, Style)>) -> Seq<(Seq<char>, Style)> {
    seq![plain("  "@), (label, Style::Dimmed), plain(" "@)] + rest
}

fn labelled_line(label: &str) -> (line: Vec<Span>)
    ensures
        line_view(line@) == labelled(label@, Seq::empty()),
{
    let mut line: Vec<Span> = Vec::new();
    push(&mut line, "  ", Style::Plain);
    push(&mut line, label, Style::Dimmed);
    push(&mut line, " ", Style::Plain);
    assert(line_view(line@) =~= labelled(label@, Seq::empty()));
    line
}

/// The lines that summarize a plugin in a listing.
pub open spec fn summary_lines(m: PluginManifest) -> Seq<Seq<(Seq<char>, Style)>> {
    summary_head(m) + m.actions@.map_values(|a: ActionDef| action_summary(a))
}

/// The lines of a plugin summary before those of its actions.
pub open spec fn summary_head(m: PluginManifest) -> Seq<Seq<(Seq<char>, Style)>> {
    let head = seq![
        seq![plain("  "@), (m.plugin.name@, Style::Bold), plain(" "@), ("v"@ + m.plugin.version@, Style::Dimmed),
            plain(" — "@ + m.plugin.description@)],
        labelled("id:"@, seq![(m.plugin.id@, Style::Cyan)]),
    ];
    let with_caps = if m.capabilities@.len() > 0 {
        head.push(labelled("capabilities:"@, listed(capability_names(m.capabilities@), Style::Yellow)))
    } else {
        head
    };
    with_caps.push(seq![plain("  "@), ("actions:"@, Style::Dimmed), plain(" "@ + decimal(m.actions@.len()))])
}

/// The line of one action in a plugin summary.
pub open spec fn action_summary(a: ActionDef) -> Seq<(Seq<char>, Style)> {
    seq![
        plain("    "@),
        ("-"@, Style::Dimmed),
        plain(" "@),
        (a.id@, Style::Cyan),
        plain(" ["@),
        (a.kind.name(), kind_style(a.kind)),
        plain("] "@ + a.title@),
    ]
}

fn action_summary_line(a: &ActionDef) -> (line: Vec<Span>)
    ensures
        line_view(line@) == action_summary(*a),
{
    let mut line: Vec<Span> = Vec::new();
    push(&mut line, "    ", Style::Plain);
    push(&mut line, "-", Style::Dimmed);
    push(&mut line, " ", Style::Plain);
    push(&mut line, a.id.as_str(), Style::Cyan);
    push(&mut line, " [", Style::Plain);
    push_span(&mut line, kind_span(a.kind));
    push_owned(&mut line, prefixed("] ", a.title.as_str()), Style::Plain);
    assert(line_view(line@) =~= action_summary(*a));
    line
}

/// The lines that summarize a plugin in a listing: name, version and
/// description; id; capabilities, when it declares any; the number of actions;
/// and a line per action with its id, kind and title.
pub fn plugin_summary_lines(m: &PluginManifest) -> (lines: Vec<Vec<Span>>)
    ensures
        lines_view(lines@) == summary_lines(*m),
{
    let mut lines: Vec<Vec<Span>> = Vec::new();
    let mut first: Vec<Span> = Vec::new();
    push(&mut first, "  ", Style::Plain);
    push(&mut first, m.plugin.name.as_str(), Style::Bold);
    push(&mut first, " ", Style::Plain);
    push_owned(&mut first, prefixed("v", m.plugin.version.as_str()), Style::Dimmed);
    push_owned(&mut first, prefixed(" — ", m.plugin.description.as_str()), Style::Plain);
    let mut id_line = labelled_line("id:");
    push(&mut id_line, m.plugin.id.as_str(), Style::Cyan);
    assert(line_view(id_line@) =~= labelled("id:"@, seq![(m.plugin.id@, Style::Cyan)]));
    assert(line_view(first@) =~= seq![plain("  "@), (m.plugin.name@, Style::Bold), plain(" "@),
        ("v"@ + m.plugin.version@, Style::Dimmed), plain(" — "@ + m.plugin.description@)]);
    let ghost l1 = line_view(first@);
    let ghost l2 = line_view(id_line@);
    lines.push(first);
    lines.push(id_line);
    assert(lines_view(lines@) =~= seq![l1, l2]);
    if m.capabilities.len() > 0 {
        let mut caps = labelled_line("capabilities:");
        let names = names_of(&m.capabilities);
        push_listed(&mut caps, &names, Style::Yellow);
        assert(line_view(caps@) =~= labelled("capabilities:"@, listed(capability_names(m.capabilities@), Style::Yellow)));
        let ghost prev = lines@;
        let ghost l3 = line_view(caps@);
        lines.push(caps);
        assert(lines_view(lines@) =~= lines_view(prev).push(l3));
    }
    let mut count: Vec<Span> = Vec::new();
    push(&mut count, "  ", Style::Plain);
    push(&mut count, "actions:", Style::Dimmed);
    let n = decimal_string(m.actions.len() as u64);
    push_owned(&mut count, prefixed(" ", n.as_str()), Style::Plain);
    assert(line_view(count@) =~= seq![plain("  "@), ("actions:"@, Style::Dimmed), plain(" "@ + decimal(m.actions@.len()))]);
    let ghost before_count = lines@;
    let ghost l4 = line_view(count@);
    lines.push(count);
    assert(lines_view(lines@) =~= lines_view(before_count).push(l4));
    let ghost head = lines_view(lines@);
    assert(head =~= summary_head(*m));
    assert(m.actions@.take(0).map_values(|a: ActionDef| action_summary(a)) =~= Seq::<Seq<(Seq<char>, Style)>>::empty());
    let mut i: usize = 0;
    while i < m.actions.len()
        invariant
            i <= m.actions.len(),
            lines_view(lines@) == head + m.actions@.take(i as int).map_values(|a: ActionDef| action_summary(a)),
        decreases m.actions.len() - i,
    {
        let ghost prev = lines@;
        let line = action_summary_line(&m.actions[i]);
        lines.push(line);
        proof {
            assert(lines_view(lines@) =~= lines_view(prev).push(line_view(line@)));
            assert(m.actions@.take(i + 1).map_values(|a: ActionDef| action_summary(a))
                =~= m.actions@.take(i as int).map_values(|a: ActionDef| action_summary(a)).push(action_summary(m.actions@[i as int])));
        }
        i = i + 1;
    }
    assert(m.actions@.take(m.actions.len() as int) =~= m.actions@);
    assert(lines_view(lines@) =~= summary_lines(*m));
    lines
}

fn push_line(lines: &mut Vec<Vec<Span>>, line: Vec<Span>)
    ensures
        lines_view(final(lines)@) == lines_view(old(lines)@).push(line_view(line@)),
{
    let ghost v = line_view(line@);
    lines.push(line);
    assert(lines_view(lines@) =~= lines_view(old(lines)@).push(v));
}

/// The lines that describe one action in detail.
pub open spec fn detail_lines(a: ActionDef) -> Seq<Seq<(Seq<char>, Style)>> {
    let head = seq![
        seq![("Action:"@, Style::Bold), plain(" "@), (a.title@, Style::Bold), plain(" "@), ("("@ + a.id@ + ")"@, Style::Dimmed)],
        labelled("description:"@, seq![plain(a.description@)]),
        labelled("kind:"@, seq![(a.kind.name(), kind_style(a.kind))]),
        labelled("approval:"@, seq![plain(a.approval.name())]),
    ];
    let with_tags = if a.tags@.len() > 0 {
        head.push(labelled("tags:"@, listed(texts(a.tags@), Style::Cyan)))
    } else {
        head
    };
    let with_caps = if a.capabilities@.len() > 0 {
        with_tags.push(labelled("capabilities:"@, listed(capability_names(a.capabilities@), Style::Yellow)))
    } else {
        with_tags
    };
    with_caps
        .push(labelled("input schema:"@, seq![plain(json_pretty(a.input_schema@))]))
        .push(labelled("output schema:"@, seq![plain(json_pretty(a.output_schema@))]))
}

/// A labelled line whose rest is the plain `text`.
fn labelled_text(label: &str, text: &str) -> (line: Vec<Span>)
    ensures
        line_view(line@) == labelled(label@, seq![plain(text@)]),
{
    let mut line = labelled_line(label);
    push(&mut line, text, Style::Plain);
    assert(line_view(line@) =~= labelled(label@, seq![plain(text@)]));
    line
}

/// The lines that describe one action in detail: title and id; description;
/// kind; approval class; tags and capabilities, when it has any; and both its
/// schemas, pretty-printed.
pub fn action_detail_lines(a: &ActionDef) -> (lines: Vec<Vec<Span>>)
    ensures
        lines_view(lines@) == detail_lines(*a),
{
    let mut lines: Vec<Vec<Span>> = Vec::new();
    let mut first: Vec<Span> = Vec::new();
    push(&mut first, "Action:", Style::Bold);
    push(&mut first, " ", Style::Plain);
    push(&mut first, a.title.as_str(), Style::Bold);
    push(&mut first, " ", Style::Plain);
    push_owned(&mut first, wrapped("(", a.id.as_str(), ")"), Style::Dimmed);
    assert(line_view(first@) =~= seq![("Action:"@, Style::Bold), plain(" "@), (a.title@, Style::Bold), plain(" "@),
        ("("@ + a.id@ + ")"@, Style::Dimmed)]);
    push_line(&mut lines, first);
    push_line(&mut lines, labelled_text("description:", a.description.as_str()));
    let mut kind = labelled_line("kind:");
    push_span(&mut kind, kind_span(a.kind));
    assert(line_view(kind@) =~= labelled("kind:"@, seq![(a.kind.name(), kind_style(a.kind))]));
    push_line(&mut lines, kind);
    push_line(&mut lines, labelled_text("approval:", a.approval.as_str()));
    let ghost head = lines_view(lines@);
    assert(head =~= seq![
        seq![("Action:"@, Style::Bold), plain(" "@), (a.title@, Style::Bold), plain(" "@), ("("@ + a.id@ + ")"@, Style::Dimmed)],
        labelled("description:"@, seq![plain(a.description@)]),
        labelled("kind:"@, seq![(a.kind.name(), kind_style(a.kind))]),
        labelled("approval:"@, seq![plain(a.approval.name())]),
    ]);
    if a.tags.len() > 0 {
        let mut tags = labelled_line("tags:");
        push_listed(&mut tags, &a.tags, Style::Cyan);
        assert(line_view(tags@) =~= labelled("tags:"@, listed(texts(a.tags@), Style::Cyan)));
        push_line(&mut lines, tags);
    }
    let ghost with_tags = lines_view(lines@);
    if a.capabilities.len() > 0 {
        let mut caps = labelled_line("capabilities:");
        let names = names_of(&a.capabilities);
        push_listed(&mut caps, &names, Style::Yellow);
        assert(line_view(caps@) =~= labelled("capabilities:"@, listed(capability_names(a.capabilities@), Style::Yellow)));
        push_line(&mut lines, caps);
    }
    let input = a.input_schema.to_pretty_string();
    push_line(&mut lines, labelled_text("input schema:", input.as_str()));
    let output = a.output_schema.to_pretty_string();
    push_line(&mut lines, labelled_text("output schema:", output.as_str()));
    assert(lines_view(lines@) =~= detail_lines(*a));
    lines
}

/// The style of a state in the result of an invocation.
pub open spec fn result_state(s: InvocationState) -> (Seq<char>, Style) {
    match s {
        InvocationState::Completed => ("completed"@, Style::GreenBold),
        InvocationState::Failed => ("failed"@, Style::RedBold),
        InvocationState::Denied => ("denied"@, Style::RedBold),
        InvocationState::TimedOut => ("timed-out"@, Style::YellowBold),
        InvocationState::Cancelled => ("cancelled"@, Style::YellowBold),
        _ => plain(s.name()),
    }
}

fn result_state_span(s: InvocationState) -> (sp: Span)
    ensures
        sp@ == result_state(s),
{
    match s {
        InvocationState::Completed => span("completed", Style::GreenBold),
        InvocationState::Failed => span("failed", Style::RedBold),
        InvocationState::Denied => span("denied", Style::RedBold),
        InvocationState::TimedOut => span("timed-out", Style::YellowBold),
        InvocationState::Cancelled => span("cancelled", Style::YellowBold),
        _ => span(s.as_str(), Style::Plain),
    }
}

/// The lines that show the outcome of an invocation.
pub open spec fn outcome_lines(inv: Invocation) -> Seq<Seq<(Seq<char>, Style)>> {
    let head = seq![
        seq![("Run:"@, Style::Bold), plain(" "@), (uuid_text(inv.id), Style::Dimmed)],
        labelled("plugin:"@, seq![(inv.plugin_id@, Style::Cyan)]),
        labelled("action:"@, seq![(inv.action_id@, Style::Cyan)]),
        labelled("state:"@, seq![result_state(inv.state)]),
    ];
    match inv.result {
        Some(InvocationResult::Success(out)) =>
            head.push(labelled("output:"@, seq![(json_pretty(out@), Style::Green)])),
        Some(InvocationResult::Error(e)) => {
            let with_error = head.push(seq![
                plain("  "@),
                ("error:"@, Style::RedBold),
                plain(" "@),
                ("["@ + e.code@ + "]"@, Style::Red),
                plain(" "@ + e.message@),
            ]);
            match e.details {
                Some(d) => with_error.push(labelled("details:"@, seq![plain(d@)])),
                None => with_error,
            }
        },
        None => head,
    }
}

/// A labelled line whose rest is `text` in `style`.
fn labelled_styled(label: &str, text: &str, style: Style) -> (line: Vec<Span>)
    ensures
        line_view(line@) == labelled(label@, seq![(text@, style)]),
{
    let mut line = labelled_line(label);
    push(&mut line, text, style);
    assert(line_view(line@) =~= labelled(label@, seq![(text@, style)]));
    line
}

/// The lines that show the outcome of an invocation: its run id, plugin,
/// action and state, then its output (pretty-printed) or its error and details.
pub fn invocation_result_lines(inv: &Invocation) -> (lines: Vec<Vec<Span>>)
    ensures
        lines_view(lines@) == outcome_lines(*inv),
{
    let mut lines: Vec<Vec<Span>> = Vec::new();
    let mut first: Vec<Span> = Vec::new();
    push(&mut first, "Run:", Style::Bold);
    push(&mut first, " ", Style::Plain);
    push_owned(&mut first, id_text(inv.id), Style::Dimmed);
    assert(line_view(first@) =~= seq![("Run:"@, Style::Bold), plain(" "@), (uuid_text(inv.id), Style::Dimmed)]);
    push_line(&mut lines, first);
    push_line(&mut lines, labelled_styled("plugin:", inv.plugin_id.as_str(), Style::Cyan));
    push_line(&mut lines, labelled_styled("action:", inv.action_id.as_str(), Style::Cyan));
    let mut state = labelled_line("state:");
    push_span(&mut state, result_state_span(inv.state));
    assert(line_view(state@) =~= labelled("state:"@, seq![result_state(inv.state)]));
    push_line(&mut lines, state);
    let ghost head = lines_view(lines@);
    assert(head =~= seq![
        seq![("Run:"@, Style::Bold), plain(" "@), (uuid_text(inv.id), Style::Dimmed)],
        labelled("plugin:"@, seq![(inv.plugin_id@, Style::Cyan)]),
        labelled("action:"@, seq![(inv.action_id@, Style::Cyan)]),
        labelled("state:"@, seq![result_state(inv.state)]),
    ]);
    match &inv.result {
        Some(InvocationResult::Success(out)) => {
            let pretty = out.to_pretty_string();
            push_line(&mut lines, labelled_styled("output:", pretty.as_str(), Style::Green));
        },
        Some(InvocationResult::Error(e)) => {
            let mut err: Vec<Span> = Vec::new();
            push(&mut err, "  ", Style::Plain);
            push(&mut err, "error:", Style::RedBold);
            push(&mut err, " ", Style::Plain);
            push_owned(&mut err, wrapped("[", e.code.as_str(), "]"), Style::Red);
            push_owned(&mut err, prefixed(" ", e.message.as_str()), Style::Plain);
            assert(line_view(err@) =~= seq![plain("  "@), ("error:"@, Style::RedBold), plain(" "@),
                ("["@ + e.code@ + "]"@, Style::Red), plain(" "@ + e.message@)]);
            push_line(&mut lines, err);
            match &e.details {
                Some(d) => {
                    push_line(&mut lines, labelled_text("details:", d.as_str()));
                },
                None => {},
            }
        },
        None => {},
    }
    assert(lines_view(lines@) =~= outcome_lines(*inv));
    lines
}

/// The style of a state in a trace listing.
pub open spec fn trace_state(s: InvocationState) -> (Seq<char>, Style) {
    match s {
        InvocationState::Completed => ("completed"@, Style::Green),
        InvocationState::Failed => ("failed"@, Style::Red),
        InvocationState::Denied => ("denied"@, Style::Red),
        _ => plain(s.name()),
    }
}

fn trace_state_span(s: InvocationState) -> (sp: Span)
    ensures
        sp@ == trace_state(s),
{
    match s {
        InvocationState::Completed => span("completed", Style::Green),
        InvocationState::Failed => span("failed", Style::Red),
        InvocationState::Denied => span("denied", Style::Red),
        _ => span(s.as_str(), Style::Plain),
    }
}

/// The time of day shown for an event (empty when chrono cannot place it).
pub open spec fn event_time(micros: i64) -> Seq<char> {
    match time_of_day_text(micros) {
        Some(t) => t,
        None => Seq::empty(),
    }
}

/// The line of one event in a trace listing: its time of day, then what happened.
pub open spec fn event_line(e: TraceEvent) -> Seq<(Seq<char>, Style)> {
    seq![plain("  ["@), (event_time(e.timestamp), Style::Dimmed), plain("] "@)] + event_spans(e.kind@)
}

/// The lines that list the trace of an invocation.
pub open spec fn trace_listing(inv: Invocation) -> Seq<Seq<(Seq<char>, Style)>> {
    seq![
        seq![("Trace for run"@, Style::Bold), plain(" "@), (uuid_text(inv.id), Style::Dimmed)],
        seq![
            plain("  "@),
            ("plugin:"@, Style::Dimmed),
            plain(" "@),
            (inv.plugin_id@, Style::Cyan),
            plain(" "@),
            ("action:"@, Style::Dimmed),
            plain(" "@),
            (inv.action_id@, Style::Cyan),
        ],
        labelled("state:"@, seq![trace_state(inv.state)]),
        Seq::empty(),
    ] + inv.trace.events@.map_values(|e: TraceEvent| event_line(e))
}

fn event_line_spans(e: &TraceEvent) -> (line: Vec<Span>)
    ensures
        line_view(line@) == event_line(*e),
{
    let mut line: Vec<Span> = Vec::new();
    push(&mut line, "  [", Style::Plain);
    let t = match time_of_day(e.timestamp) {
        Some(t) => t,
        None => String::new(),
    };
    push_owned(&mut line, t, Style::Dimmed);
    push(&mut line, "] ", Style::Plain);
    let ghost head = line_view(line@);
    let mut rest = trace_event_spans(&e.kind);
    let ghost tail = line_view(rest@);
    line.append(&mut rest);
    assert(line_view(line@) =~= head + tail);
    assert(line_view(line@) =~= event_line(*e));
    line
}

/// The lines that list the trace of an invocation: its run id, plugin, action
/// and state, a blank line, then one line per event in the order recorded.
pub fn trace_lines(inv: &Invocation) -> (lines: Vec<Vec<Span>>)
    ensures
        lines_view(lines@) == trace_listing(*inv),
{
    let mut lines: Vec<Vec<Span>> = Vec::new();
    let mut first: Vec<Span> = Vec::new();
    push(&mut first, "Trace for run", Style::Bold);
    push(&mut first, " ", Style::Plain);
    push_owned(&mut first, id_text(inv.id), Style::Dimmed);
    assert(line_view(first@) =~= seq![("Trace for run"@, Style::Bold), plain(" "@), (uuid_text(inv.id), Style::Dimmed)]);
    push_line(&mut lines, first);
    let mut second = labelled_line("plugin:");
    push(&mut second, inv.plugin_id.as_str(), Style::Cyan);
    push(&mut second, " ", Style::Plain);
    push(&mut second, "action:", Style::Dimmed);
    push(&mut second, " ", Style::Plain);
    push(&mut second, inv.action_id.as_str(), Style::Cyan);
    assert(line_view(second@) =~= seq![plain("  "@), ("plugin:"@, Style::Dimmed), plain(" "@), (inv.plugin_id@, Style::Cyan),
        plain(" "@), ("action:"@, Style::Dimmed), plain(" "@), (inv.action_id@, Style::Cyan)]);
    push_line(&mut lines, second);
    let mut state = labelled_line("state:");
    push_span(&mut state, trace_state_span(inv.state));
    assert(line_view(state@) =~= labelled("state:"@, seq![trace_state(inv.state)]));
    push_line(&mut lines, state);
    let blank: Vec<Span> = Vec::new();
    assert(line_view(blank@) =~= Seq::<(Seq<char>, Style)>::empty());
    push_line(&mut lines, blank);
    let ghost head = lines_view(lines@);
    assert(head =~= trace_listing(*inv).take(4));
    let events = &inv.trace.events;
    assert(events@.take(0).map_values(|e: TraceEvent| event_line(e)) =~= Seq::<Seq<(Seq<char>, Style)>>::empty());
    let mut i: usize = 0;
    while i < events.len()
        invariant
            i <= events.len(),
            lines_view(lines@) == head + events@.take(i as int).map_values(|e: TraceEvent| event_line(e)),
        decreases events.len() - i,
    {
        push_line(&mut lines, event_line_spans(&events[i]));
        proof {
            assert(events@.take(i + 1).map_values(|e: TraceEvent| event_line(e))
                =~= events@.take(i as int).map_values(|e: TraceEvent| event_line(e)).push(event_line(events@[i as int])));
        }
        i = i + 1;
    }
    assert(events@.take(events.len() as int) =~= events@);
    assert(lines_view(lines@) =~= trace_listing(*inv));
    lines
}

/// The detail blocks of `actions`, each after a blank line.
pub open spec fn action_blocks(actions: Seq<ActionDef>) -> Seq<Seq<(Seq<char>, Style)>>
    decreases actions.len(),
{
    if actions.len() == 0 {
        Seq::empty()
    } else {
        action_blocks(actions.drop_last()) + seq![Seq::empty()] + detail_lines(actions.last())
    }
}

/// The capabilities line of a plugin inspection.
pub open spec fn inspected_capabilities(caps: Seq<Capability>) -> Seq<char> {
    if caps.len() > 0 {
        "  capabilities: "@ + joined(capability_names(caps), ", "@)
    } else {
        "  capabilities: none"@
    }
}

/// The lines of a plugin inspection.
pub open spec fn inspection(m: PluginManifest) -> Seq<Seq<(Seq<char>, Style)>> {
    seq![
        seq![plain("Plugin: "@ + m.plugin.name@ + " ("@ + m.plugin.id@ + ")"@)],
        seq![plain("  version: "@ + m.plugin.version@)],
        seq![plain("  author: "@ + m.plugin.author@)],
        seq![plain("  description: "@ + m.plugin.description@)],
        seq![plain("  runtime-compat: "@ + m.plugin.runtime_compat@)],
        seq![plain(inspected_capabilities(m.capabilities@))],
        Seq::empty(),
        seq![plain("Actions ("@ + decimal(m.actions@.len()) + "):"@)],
    ] + action_blocks(m.actions@)
}

fn plain_line(text: String) -> (line: Vec<Span>)
    ensures
        line_view(line@) == seq![plain(text@)],
{
    let mut line: Vec<Span> = Vec::new();
    push_owned(&mut line, text, Style::Plain);
    assert(line_view(line@) =~= seq![plain(text@)]);
    line
}

/// The lines of a plugin inspection: name and id, version, author,
/// description, runtime compatibility and capabilities, then the number of
/// actions and each action in detail after a blank line.
pub fn inspect_lines(m: &PluginManifest) -> (lines: Vec<Vec<Span>>)
    ensures
        lines_view(lines@) == inspection(*m),
{
    let mut lines: Vec<Vec<Span>> = Vec::new();
    let mut title = wrapped("Plugin: ", m.plugin.name.as_str(), " (");
    title.append(m.plugin.id.as_str());
    title.append(")");
    push_line(&mut lines, plain_line(title));
    push_line(&mut lines, plain_line(prefixed("  version: ", m.plugin.version.as_str())));
    push_line(&mut lines, plain_line(prefixed("  author: ", m.plugin.author.as_str())));
    push_line(&mut lines, plain_line(prefixed("  description: ", m.plugin.description.as_str())));
    push_line(&mut lines, plain_line(prefixed("  runtime-compat: ", m.plugin.runtime_compat.as_str())));
    let caps = if m.capabilities.len() > 0 {
        let names = names_of(&m.capabilities);
        let j = join(&names, ", ");
        prefixed("  capabilities: ", j.as_str())
    } else {
        String::from_str("  capabilities: none")
    };
    push_line(&mut lines, plain_line(caps));
    let blank: Vec<Span> = Vec::new();
    assert(line_view(blank@) =~= Seq::<(Seq<char>, Style)>::empty());
    push_line(&mut lines, blank);
    let n = decimal_string(m.actions.len() as u64);
    push_line(&mut lines, plain_line(wrapped("Actions (", n.as_str(), "):")));
    let ghost head = lines_view(lines@);
    assert(head =~= inspection(*m).take(8));
    assert(m.actions@.take(0) =~= Seq::<ActionDef>::empty());
    let mut i: usize = 0;
    while i < m.actions.len()
        invariant
            i <= m.actions.len(),
            lines_view(lines@) == head + action_blocks(m.actions@.take(i as int)),
        decreases m.actions.len() - i,
    {
        let blank: Vec<Span> = Vec::new();
        assert(line_view(blank@) =~= Seq::<(Seq<char>, Style)>::empty());
        push_line(&mut lines, blank);
        let ghost before = lines_view(lines@);
        let mut detail = action_detail_lines(&m.actions[i]);
        let ghost block = lines_view(detail@);
        lines.append(&mut detail);
        assert(lines_view(lines@) =~= before + block);
        proof {
            assert(m.actions@.take(i + 1).drop_last() =~= m.actions@.take(i as int));
            assert(m.actions@.take(i + 1).last() == m.actions@[i as int]);
        }
        i = i + 1;
        assert(lines_view(lines@) =~= head + action_blocks(m.actions@.take(i as int)));
    }
    assert(m.actions@.take(m.actions.len() as int) =~= m.actions@);
    assert(lines_view(lines@) =~= inspection(*m));
    lines
}

/// The position of an event's kind among the kinds of trace events.
pub open spec fn event_kind(e: EventView) -> nat {
    match e {
        EventView::PluginLoaded { .. } => 0,
        EventView::ActionDiscovered { .. } => 1,
        EventView::InvocationRequested { .. } => 2,
        EventView::ValidationPassed => 3,
        EventView::ValidationFailed { .. } => 4,
        EventView::PolicyAllowed { .. } => 5,
        EventView::PolicyDenied { .. } => 6,
        EventView::PolicyRequiresApproval { .. } => 7,
        EventView::ExecutionStarted => 8,
        EventView::ExecutionSucceeded { .. } => 9,
        EventView::ExecutionFailed { .. } => 10,
        EventView::ExecutionTimedOut { .. } => 11,
        EventView::ExecutionCancelled => 12,
        EventView::HostCallIssued { .. } => 13,
        EventView::CustomEvent { .. } => 14,
    }
}

/// The line of a policy event opens with the verdict, in the colour of the
/// verdict (allowed green, denied red, approval yellow), then names the rule
/// that decided in parentheses; a denial adds its reason.
pub proof fn law_policy_events_show_their_verdict(rule: Seq<char>, reason: Seq<char>)
    ensures
        event_spans(EventView::PolicyAllowed { rule }) == seq![
            ("policy: allowed"@, Style::Green), (" ("@, Style::Plain), (rule, Style::Dimmed), (")"@, Style::Plain),
        ],
        event_spans(EventView::PolicyDenied { rule, reason }) == seq![
            ("policy: denied"@, Style::Red), (" ("@, Style::Plain), (rule, Style::Dimmed), (") "@, Style::Plain),
            (reason, Style::Dimmed),
        ],
        event_spans(EventView::PolicyRequiresApproval { rule }) == seq![
            ("policy: requires approval"@, Style::Yellow), (" ("@, Style::Plain), (rule, Style::Dimmed),
            (")"@, Style::Plain),
        ],
{
}

/// The length and first character of the word that opens an event's line.
proof fn lemma_opening_word(e: EventView)
    ensures
        event_spans(e).len() > 0,
        ({
            let w = event_spans(e)[0].0;
            match e {
                EventView::PluginLoaded { .. } => w.len() == 6 && w[0] == 'l',
                EventView::ActionDiscovered { .. } => w.len() == 10 && w[0] == 'd',
                EventView::InvocationRequested { .. } => w.len() == 6 && w[0] == 'i',
                EventView::ValidationPassed => w.len() == 17 && w[0] == 'v',
                EventView::ValidationFailed { .. } => w.len() == 18,
                EventView::PolicyAllowed { .. } => w.len() == 15,
                EventView::PolicyDenied { .. } => w.len() == 14,
                EventView::PolicyRequiresApproval { .. } => w.len() == 25,
                EventView::ExecutionStarted => w.len() == 17 && w[0] == 'e',
                EventView::ExecutionSucceeded { .. } => w.len() == 4,
                EventView::ExecutionFailed { .. } => w.len() == 6 && w[0] == 'f',
                EventView::ExecutionTimedOut { .. } => w.len() == 9 && w[0] == 't',
                EventView::ExecutionCancelled => w.len() == 9 && w[0] == 'c',
                EventView::HostCallIssued { .. } => w.len() == 10 && w[0] == 'h',
                EventView::CustomEvent { .. } => w.len() == 6 && w[0] == 'e',
            }
        }),
{
    match e {
        EventView::PluginLoaded { .. } => reveal_strlit("loaded"),
        EventView::ActionDiscovered { .. } => reveal_strlit("discovered"),
        EventView::InvocationRequested { .. } => reveal_strlit("invoke"),
        EventView::ValidationPassed => reveal_strlit("validation passed"),
        EventView::ValidationFailed { .. } => reveal_strlit("validation failed:"),
        EventView::PolicyAllowed { .. } => reveal_strlit("policy: allowed"),
        EventView::PolicyDenied { .. } => reveal_strlit("policy: denied"),
        EventView::PolicyRequiresApproval { .. } => reveal_strlit("policy: requires approval"),
        EventView::ExecutionStarted => reveal_strlit("execution started"),
        EventView::ExecutionSucceeded { .. } => reveal_strlit("done"),
        EventView::ExecutionFailed { .. } => reveal_strlit("failed"),
        EventView::ExecutionTimedOut { .. } => reveal_strlit("timed out"),
        EventView::ExecutionCancelled => reveal_strlit("cancelled"),
        EventView::HostCallIssued { .. } => reveal_strlit("host call:"),
        EventView::CustomEvent { .. } => reveal_strlit("event:"),
    }
}

/// Every event line opens with a word that names its kind: events of two
/// different kinds never open with the same text.
pub proof fn law_event_lines_name_their_kind(e1: EventView, e2: EventView)
    requires
        event_kind(e1) != event_kind(e2),
    ensures
        event_spans(e1).len() > 0,
        event_spans(e2).len() > 0,
        event_spans(e1)[0].0 != event_spans(e2)[0].0,
{
    lemma_opening_word(e1);
    lemma_opening_word(e2);
    let w1 = event_spans(e1)[0].0;
    let w2 = event_spans(e2)[0].0;
    if w1 == w2 {
        assert(w1.len() == w2.len());
        assert(w1[0] == w2[0]);
    }
}

/// The number of lines of a plugin summary before its action lines: name,
/// id, capabilities when it declares any, and the action count.
pub open spec fn summary_head_len(m: PluginManifest) -> int {
    if m.capabilities@.len() > 0 { 4 } else { 3 }
}

/// A plugin summary ends with the action count and then one line per action
/// of the manifest, in order, each showing that action's id, kind and title.
pub proof fn law_summary_lists_every_action(m: PluginManifest)
    ensures
        summary_lines(m).len() == summary_head_len(m) + m.actions@.len(),
        summary_lines(m)[summary_head_len(m) - 1] == seq![
            ("  "@, Style::Plain), ("actions:"@, Style::Dimmed), (" "@ + decimal(m.actions@.len()), Style::Plain),
        ],
        forall|i: int| #![trigger m.actions@[i]] 0 <= i < m.actions@.len() ==> summary_lines(m)[summary_head_len(m) + i] == seq![
            ("    "@, Style::Plain),
            ("-"@, Style::Dimmed),
            (" "@, Style::Plain),
            (m.actions@[i].id@, Style::Cyan),
            (" ["@, Style::Plain),
            (m.actions@[i].kind.name(), kind_style(m.actions@[i].kind)),
            ("] "@ + m.actions@[i].title@, Style::Plain),
        ],
{
    assert(summary_head(m).len() == summary_head_len(m));
    assert forall|i: int| #![trigger m.actions@[i]] 0 <= i < m.actions@.len() implies summary_lines(m)[summary_head_len(m) + i]
        == action_summary(m.actions@[i]) by {
        assert(summary_lines(m)[summary_head_len(m) + i] == m.actions@.map_values(|a: ActionDef| action_summary(a))[i]);
    }
}

/// How many lines the detail blocks of `actions` take: for each action a blank
/// line and its detail lines.
pub open spec fn blocks_len(actions: Seq<ActionDef>) -> nat
    decreases actions.len(),
{
    if actions.len() == 0 {
        0
    } else {
        blocks_len(actions.drop_last()) + 1 + detail_lines(actions.last()).len()
    }
}

/// The blocks of `actions` take `blocks_len(actions)` lines.
proof fn lemma_blocks_len(actions: Seq<ActionDef>)
    ensures
        action_blocks(actions).len() == blocks_len(actions),
    decreases actions.len(),
{
    if actions.len() > 0 {
        lemma_blocks_len(actions.drop_last());
    }
}

/// The block of `actions[i]` starts after the blocks of the actions before it:
/// a blank line, then its detail lines.
proof fn lemma_block_at(actions: Seq<ActionDef>, i: int)
    requires
        0 <= i < actions.len(),
    ensures
        ({
            let k = blocks_len(actions.take(i)) as int;
            let d = detail_lines(actions[i]);
            &&& k + 1 + d.len() <= action_blocks(actions).len()
            &&& action_blocks(actions)[k] == Seq::<(Seq<char>, Style)>::empty()
            &&& action_blocks(actions).subrange(k + 1, k + 1 + d.len()) == d
        }),
    decreases actions.len(),
{
    let init = actions.drop_last();
    let d = detail_lines(actions[i]);
    let blank = Seq::<(Seq<char>, Style)>::empty();
    lemma_blocks_len(init);
    lemma_blocks_len(actions);
    let front = action_blocks(init);
    let blocks = action_blocks(actions);
    assert(blocks == front + seq![blank] + detail_lines(actions.last()));
    if i < actions.len() - 1 {
        lemma_block_at(init, i);
        assert(actions.take(i) =~= init.take(i));
        assert(init[i] == actions[i]);
        let k = blocks_len(init.take(i)) as int;
        assert(blocks[k] == front[k]);
        assert(blocks.subrange(k + 1, k + 1 + d.len()) =~= front.subrange(k + 1, k + 1 + d.len()));
    } else {
        assert(actions.take(i) =~= init);
        let k = front.len() as int;
        assert(blocks[k] == blank);
        assert(blocks.subrange(k + 1, k + 1 + d.len()) =~= d);
    }
}

/// The line of a plugin inspection at which the block of `actions[i]` starts:
/// after the eight heading lines and the blocks of the actions before it.
pub open spec fn block_start(actions: Seq<ActionDef>, i: int) -> int {
    8 + blocks_len(actions.take(i)) as int
}

/// A plugin inspection shows, after its eight heading lines (the last being
/// `Actions (n):`), a blank line and the full detail lines of every action of
/// the manifest, in order, and nothing else.
pub proof fn law_inspection_details_every_action(m: PluginManifest)
    ensures
        inspection(m).len() == 8 + blocks_len(m.actions@),
        inspection(m)[7] == seq![("Actions ("@ + decimal(m.actions@.len()) + "):"@, Style::Plain)],
        forall|i: int| #![trigger block_start(m.actions@, i)] 0 <= i < m.actions@.len() ==> {
            let k = block_start(m.actions@, i);
            &&& inspection(m)[k] == Seq::<(Seq<char>, Style)>::empty()
            &&& inspection(m).subrange(k + 1, k + 1 + detail_lines(m.actions@[i]).len()) == detail_lines(m.actions@[i])
        },
{
    lemma_blocks_len(m.actions@);
    assert(inspection(m).skip(8) =~= action_blocks(m.actions@));
    lemma_blocks_after_heading(inspection(m), m.actions@);
}

/// Where the block of each action lies in lines that hold the blocks of
/// `actions` after eight heading lines.
proof fn lemma_blocks_after_heading(all: Seq<Seq<(Seq<char>, Style)>>, actions: Seq<ActionDef>)
    requires
        all.len() >= 8,
        all.skip(8) == action_blocks(actions),
    ensures
        forall|i: int| #![trigger block_start(actions, i)] 0 <= i < actions.len() ==> {
            let k = block_start(actions, i);
            &&& all[k] == Seq::<(Seq<char>, Style)>::empty()
            &&& all.subrange(k + 1, k + 1 + detail_lines(actions[i]).len()) == detail_lines(actions[i])
        },
{
    let blocks = action_blocks(actions);
    let head = all.take(8);
    assert(all =~= head + blocks);
    assert forall|i: int| #![trigger block_start(actions, i)] 0 <= i < actions.len() implies {
        let k = block_start(actions, i);
        &&& all[k] == Seq::<(Seq<char>, Style)>::empty()
        &&& all.subrange(k + 1, k + 1 + detail_lines(actions[i]).len()) == detail_lines(actions[i])
    } by {
        lemma_block_at(actions, i);
        lemma_shifted_block(all, head, blocks, blocks_len(actions.take(i)) as int, detail_lines(actions[i]));
    }
}

/// A block found at `k` in `blocks` is found `head.len()` lines later in `head + blocks`.
proof fn lemma_shifted_block(
    all: Seq<Seq<(Seq<char>, Style)>>,
    head: Seq<Seq<(Seq<char>, Style)>>,
    blocks: Seq<Seq<(Seq<char>, Style)>>,
    k: int,
    d: Seq<Seq<(Seq<char>, Style)>>,
)
    requires
        all == head + blocks,
        0 <= k,
        k + 1 + d.len() <= blocks.len(),
        blocks[k] == Seq::<(Seq<char>, Style)>::empty(),
        blocks.subrange(k + 1, k + 1 + d.len()) == d,
    ensures
        all[head.len() + k] == Seq::<(Seq<char>, Style)>::empty(),
        all.subrange(head.len() + k + 1, head.len() + k + 1 + d.len()) == d,
{
    assert(all.subrange(head.len() + k + 1, head.len() + k + 1 + d.len()) =~= blocks.subrange(k + 1, k + 1 + d.len()));
}

/// When an invocation succeeded, the last line of its outcome shows its own
/// output, pretty-printed and in green.
pub proof fn law_outcome_shows_the_output(inv: Invocation)
    requires
        inv.result matches Some(InvocationResult::Success(_)),
    ensures
        inv.result matches Some(InvocationResult::Success(out)) && outcome_lines(inv).last() == seq![
            ("  "@, Style::Plain), ("output:"@, Style::Dimmed), (" "@, Style::Plain), (json_pretty(out@), Style::Green),
        ],
{
}

/// The outcome of an invocation does not show its input: two invocations that
/// differ only in their input are shown alike.
pub proof fn law_outcome_ignores_the_input(inv: Invocation, other: Invocation)
    requires
        other.id == inv.id,
        other.plugin_id == inv.plugin_id,
        other.action_id == inv.action_id,
        other.state == inv.state,
        other.result == inv.result,
    ensures
        outcome_lines(other) == outcome_lines(inv),
{
}

/// A trace listing has four heading lines (run id, plugin and action, state,
/// a blank line) and then exactly one line per recorded event, in the order
/// recorded: the event's time of day in brackets, then what happened.
pub proof fn law_trace_lists_every_event(inv: Invocation)
    ensures
        trace_listing(inv).len() == 4 + inv.trace.events@.len(),
        trace_listing(inv)[0] == seq![("Trace for run"@, Style::Bold), (" "@, Style::Plain), (uuid_text(inv.id), Style::Dimmed)],
        trace_listing(inv)[3] == Seq::<(Seq<char>, Style)>::empty(),
        forall|i: int| #![trigger inv.trace.events@[i]] 0 <= i < inv.trace.events@.len() ==> trace_listing(inv)[4 + i]
            == seq![
                ("  ["@, Style::Plain),
                (event_time(inv.trace.events@[i].timestamp), Style::Dimmed),
                ("] "@, Style::Plain),
            ] + event_spans(inv.trace.events@[i].kind@),
{
    assert forall|i: int| #![trigger inv.trace.events@[i]] 0 <= i < inv.trace.events@.len() implies trace_listing(inv)[4 + i]
        == event_line(inv.trace.events@[i]) by {
        assert(trace_listing(inv)[4 + i] == inv.trace.events@.map_values(|e: TraceEvent| event_line(e))[i]);
    }
}

/// The detail of an action shows, in order, its title and id, description,
/// kind, approval class, its tags and capabilities when it has any, and both
/// schemas pretty-printed, the input schema before the output schema.
pub proof fn law_action_detail_shows_the_action(a: ActionDef)
    ensures
        ({
            let d = detail_lines(a);
            let extra = (if a.tags@.len() > 0 { 1int } else { 0int }) + (if a.capabilities@.len() > 0 { 1int } else { 0int });
            &&& d.len() == 6 + extra
            &&& d[0] == seq![
                ("Action:"@, Style::Bold), (" "@, Style::Plain), (a.title@, Style::Bold), (" "@, Style::Plain),
                ("("@ + a.id@ + ")"@, Style::Dimmed),
            ]
            &&& d[1] == seq![("  "@, Style::Plain), ("description:"@, Style::Dimmed), (" "@, Style::Plain), (a.description@, Style::Plain)]
            &&& d[2] == seq![("  "@, Style::Plain), ("kind:"@, Style::Dimmed), (" "@, Style::Plain), (a.kind.name(), kind_style(a.kind))]
            &&& d[3] == seq![("  "@, Style::Plain), ("approval:"@, Style::Dimmed), (" "@, Style::Plain), (a.approval.name(), Style::Plain)]
            &&& (a.tags@.len() > 0 ==> d[4] == seq![("  "@, Style::Plain), ("tags:"@, Style::Dimmed), (" "@, Style::Plain)]
                + listed(texts(a.tags@), Style::Cyan))
            &&& (a.capabilities@.len() > 0 ==> d[4 + extra - 1] == seq![
                ("  "@, Style::Plain), ("capabilities:"@, Style::Dimmed), (" "@, Style::Plain)]
                + listed(capability_names(a.capabilities@), Style::Yellow))
            &&& d[4 + extra] == seq![
                ("  "@, Style::Plain), ("input schema:"@, Style::Dimmed), (" "@, Style::Plain), (json_pretty(a.input_schema@), Style::Plain),
            ]
            &&& d[5 + extra] == seq![
                ("  "@, Style::Plain), ("output schema:"@, Style::Dimmed), (" "@, Style::Plain), (json_pretty(a.output_schema@), Style::Plain),
            ]
        }),
{
}

/// The outcome of an invocation opens with its run id, plugin, action and
/// state; a failed one then shows its error code and message, and the
/// error's details when it has any, and nothing more.
pub proof fn law_outcome_shows_the_error(inv: Invocation)
    requires
        inv.result matches Some(InvocationResult::Error(_)),
    ensures
        outcome_lines(inv)[0] == seq![("Run:"@, Style::Bold), (" "@, Style::Plain), (uuid_text(inv.id), Style::Dimmed)],
        outcome_lines(inv)[1] == seq![("  "@, Style::Plain), ("plugin:"@, Style::Dimmed), (" "@, Style::Plain), (inv.plugin_id@, Style::Cyan)],
        outcome_lines(inv)[2] == seq![("  "@, Style::Plain), ("action:"@, Style::Dimmed), (" "@, Style::Plain), (inv.action_id@, Style::Cyan)],
        outcome_lines(inv)[3] == seq![("  "@, Style::Plain), ("state:"@, Style::Dimmed), (" "@, Style::Plain), result_state(inv.state)],
        inv.result matches Some(InvocationResult::Error(e)) && {
            &&& outcome_lines(inv)[4] == seq![
                ("  "@, Style::Plain), ("error:"@, Style::RedBold), (" "@, Style::Plain), ("["@ + e.code@ + "]"@, Style::Red),
                (" "@ + e.message@, Style::Plain),
            ]
            &&& outcome_lines(inv).len() == if e.details is Some { 6int } else { 5int }
            &&& (e.details matches Some(d) ==> outcome_lines(inv)[5] == seq![
                ("  "@, Style::Plain), ("details:"@, Style::Dimmed), (" "@, Style::Plain), (d@, Style::Plain),
            ])
        },
{
}

} // verus!

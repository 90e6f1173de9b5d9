//! The first-match-wins policy engine: rules are tried in order and the first
//! one whose conditions all hold decides; when none matches, the policy's
//! default effect applies.

use vstd::prelude::*;
use vstd::string::StringExecFns;

use crate::action::ActionKind;
use crate::capability::{contains_capability, Capability};
use crate::policy::{PolicyConfig, PolicyEffect, PolicyRule};
use crate::text::texts;

verus! {

/// What the policy engine knows of an action that is about to run.
#[derive(Debug, Clone)]
pub struct PolicyContext {
    pub plugin_id: String,
    pub action_id: String,
    pub action_kind: ActionKind,
    pub capabilities: Vec<Capability>,
    pub tags: Vec<String>,
}

/// The content of a `PolicyContext`, as text.
pub struct ContextView {
    pub plugin_id: Seq<char>,
    pub action_id: Seq<char>,
    pub action_kind: ActionKind,
    pub capabilities: Seq<Capability>,
    pub tags: Seq<Seq<char>>,
}

impl View for PolicyContext {
    type V = ContextView;

    open spec fn view(&self) -> ContextView {
        ContextView {
            plugin_id: self.plugin_id@,
            action_id: self.action_id@,
            action_kind: self.action_kind,
            capabilities: self.capabilities@,
            tags: texts(self.tags@),
        }
    }
}

/// The outcome of a policy evaluation.
#[derive(Debug, Clone)]
pub struct PolicyDecision {
    pub effect: PolicyEffect,
    /// The id of the rule that decided, if one did.
    pub matched_rule: Option<String>,
    pub reason: String,
}

/// The content of a `PolicyDecision`, as text.
pub struct DecisionView {
    pub effect: PolicyEffect,
    pub matched_rule: Option<Seq<char>>,
    pub reason: Seq<char>,
}

impl View for PolicyDecision {
    type V = DecisionView;

    open spec fn view(&self) -> DecisionView {
        DecisionView {
            effect: self.effect,
            matched_rule: match self.matched_rule {
                Some(id) => Some(id@),
                None => None,
            },
            reason: self.reason@,
        }
    }
}

/// Whether every condition that `rule` sets holds of `ctx`.
pub open spec fn rule_applies(rule: PolicyRule, ctx: ContextView) -> bool {
    &&& (rule.match_action_kind matches Some(k) ==> ctx.action_kind == k)
    &&& (rule.match_capability matches Some(c) ==> ctx.capabilities.contains(c))
    &&& (rule.match_tag matches Some(t) ==> ctx.tags.contains(t@))
    &&& (rule.match_plugin_id matches Some(p) ==> ctx.plugin_id == p@)
    &&& (rule.match_action_id matches Some(a) ==> ctx.action_id == a@)
}

/// Whether `rules[i]` is the first rule that applies to `ctx`.
pub open spec fn is_first_match(rules: Seq<PolicyRule>, ctx: ContextView, i: int) -> bool {
    &&& 0 <= i < rules.len()
    &&& rule_applies(rules[i], ctx)
    &&& forall|j: int| 0 <= j < i ==> !rule_applies(#[trigger] rules[j], ctx)
}

/// The reason given when `rule` decides: its description, else a note naming it.
pub open spec fn rule_reason(rule: PolicyRule) -> Seq<char> {
    match rule.description {
        Some(d) => d@,
        None => "matched rule '"@ + rule.id@ + "'"@,
    }
}

/// The decision of a matching rule.
pub open spec fn rule_decision(rule: PolicyRule) -> DecisionView {
    DecisionView { effect: rule.effect, matched_rule: Some(rule.id@), reason: rule_reason(rule) }
}

/// The decision when no rule matches.
pub open spec fn default_decision(effect: PolicyEffect) -> DecisionView {
    DecisionView {
        effect,
        matched_rule: None,
        reason: "no rule matched, using default: "@ + effect.name(),
    }
}

/// The decision of the rules `rules`, with `default_effect` when none applies.
pub open spec fn policy_decision(rules: Seq<PolicyRule>, default_effect: PolicyEffect, ctx: ContextView) -> DecisionView {
    if exists|i: int| is_first_match(rules, ctx, i) {
        rule_decision(rules[choose|i: int| is_first_match(rules, ctx, i)])
    } else {
        default_decision(default_effect)
    }
}

/// The decision of a whole policy for `ctx`.
pub open spec fn config_decision(config: PolicyConfig, ctx: ContextView) -> DecisionView {
    policy_decision(config.rules@, config.default_effect, ctx)
}

/// There is at most one first match.
proof fn lemma_first_match_unique(rules: Seq<PolicyRule>, ctx: ContextView, i: int, k: int)
    requires
        is_first_match(rules, ctx, i),
        is_first_match(rules, ctx, k),
    ensures
        i == k,
{
    if i < k {
        assert(!rule_applies(rules[i], ctx));
    } else if k < i {
        assert(!rule_applies(rules[k], ctx));
    }
}

/// First match wins: when `rules[i]` is the first rule that applies, it decides,
/// whatever the rules after it say.
pub proof fn law_first_match_wins(rules: Seq<PolicyRule>, default_effect: PolicyEffect, ctx: ContextView, i: int)
    requires
        is_first_match(rules, ctx, i),
    ensures
        policy_decision(rules, default_effect, ctx) == rule_decision(rules[i]),
{
    let k = choose|k: int| is_first_match(rules, ctx, k);
    lemma_first_match_unique(rules, ctx, i, k);
}

/// When no rule applies, the default effect decides, with no matched rule.
pub proof fn law_default_when_nothing_matches(rules: Seq<PolicyRule>, default_effect: PolicyEffect, ctx: ContextView)
    requires
        forall|i: int| 0 <= i < rules.len() ==> !rule_applies(#[trigger] rules[i], ctx),
    ensures
        policy_decision(rules, default_effect, ctx) == default_decision(default_effect),
{
    if exists|i: int| is_first_match(rules, ctx, i) {
        let k = choose|k: int| is_first_match(rules, ctx, k);
        assert(!rule_applies(rules[k], ctx));
    }
}

/// Rules after a matching rule are never consulted: appending rules to a policy
/// in which some rule already applies changes no decision.
pub proof fn law_appended_rules_unseen(
    rules: Seq<PolicyRule>,
    more: Seq<PolicyRule>,
    default_effect: PolicyEffect,
    ctx: ContextView,
    i: int,
)
    requires
        0 <= i < rules.len(),
        rule_applies(rules[i], ctx),
    ensures
        policy_decision(rules + more, default_effect, ctx) == policy_decision(rules, default_effect, ctx),
{
    lemma_some_first_match(rules, ctx, i);
    let k = choose|k: int| is_first_match(rules, ctx, k);
    assert(is_first_match(rules + more, ctx, k)) by {
        assert forall|j: int| 0 <= j < k implies !rule_applies(#[trigger] (rules + more)[j], ctx) by {
            assert((rules + more)[j] == rules[j]);
        }
        assert((rules + more)[k] == rules[k]);
    }
    law_first_match_wins(rules, default_effect, ctx, k);
    law_first_match_wins(rules + more, default_effect, ctx, k);
    assert((rules + more)[k] == rules[k]);
}

/// A rule that does not apply can be put in front of a policy without changing
/// any decision.
pub proof fn law_non_matching_rule_skipped(
    rule: PolicyRule,
    rules: Seq<PolicyRule>,
    default_effect: PolicyEffect,
    ctx: ContextView,
)
    requires
        !rule_applies(rule, ctx),
    ensures
        policy_decision(seq![rule] + rules, default_effect, ctx) == policy_decision(rules, default_effect, ctx),
{
    let all = seq![rule] + rules;
    if exists|i: int| is_first_match(rules, ctx, i) {
        let k = choose|k: int| is_first_match(rules, ctx, k);
        assert(is_first_match(all, ctx, k + 1)) by {
            assert(all[k + 1] == rules[k]);
            assert forall|j: int| 0 <= j < k + 1 implies !rule_applies(#[trigger] all[j], ctx) by {
                if j > 0 {
                    assert(all[j] == rules[j - 1]);
                }
            }
        }
        law_first_match_wins(rules, default_effect, ctx, k);
        law_first_match_wins(all, default_effect, ctx, k + 1);
    } else {
        assert forall|i: int| 0 <= i < all.len() implies !rule_applies(#[trigger] all[i], ctx) by {
            if i > 0 {
                assert(all[i] == rules[i - 1]);
                if rule_applies(rules[i - 1], ctx) {
                    lemma_some_first_match(rules, ctx, i - 1);
                }
            }
        }
        law_default_when_nothing_matches(all, default_effect, ctx);
        assert forall|i: int| 0 <= i < rules.len() implies !rule_applies(#[trigger] rules[i], ctx) by {
            if rule_applies(rules[i], ctx) {
                lemma_some_first_match(rules, ctx, i);
            }
        }
        law_default_when_nothing_matches(rules, default_effect, ctx);
    }
}

/// A rule that sets a condition which the context breaks (another action
/// kind, a capability or tag the action lacks, another plugin, another action)
/// never decides: removing it from the policy changes no decision.
pub proof fn law_rule_with_unmet_condition_never_decides(
    rules: Seq<PolicyRule>,
    default_effect: PolicyEffect,
    ctx: ContextView,
    i: int,
)
    requires
        0 <= i < rules.len(),
        (rules[i].match_action_kind matches Some(k) && ctx.action_kind != k)
            || (rules[i].match_capability matches Some(c) && !ctx.capabilities.contains(c))
            || (rules[i].match_tag matches Some(t) && !ctx.tags.contains(t@))
            || (rules[i].match_plugin_id matches Some(p) && ctx.plugin_id != p@)
            || (rules[i].match_action_id matches Some(a) && ctx.action_id != a@),
    ensures
        policy_decision(rules, default_effect, ctx) == policy_decision(rules.remove(i), default_effect, ctx),
{
    let r2 = rules.remove(i);
    assert(!rule_applies(rules[i], ctx));
    assert forall|j: int| 0 <= j < r2.len() implies #[trigger] r2[j] == (if j < i { rules[j] } else { rules[j + 1] }) by {}
    if exists|k: int| is_first_match(rules, ctx, k) {
        let k = choose|k: int| is_first_match(rules, ctx, k);
        law_first_match_wins(rules, default_effect, ctx, k);
        if k < i {
            assert(r2[k] == rules[k]);
            assert(is_first_match(r2, ctx, k)) by {
                assert forall|j: int| 0 <= j < k implies !rule_applies(#[trigger] r2[j], ctx) by {
                    assert(r2[j] == rules[j]);
                }
            }
            law_first_match_wins(r2, default_effect, ctx, k);
        } else {
            assert(k != i);
            assert(r2[k - 1] == rules[k]);
            assert(is_first_match(r2, ctx, k - 1)) by {
                assert forall|j: int| 0 <= j < k - 1 implies !rule_applies(#[trigger] r2[j], ctx) by {
                    if j < i {
                        assert(r2[j] == rules[j]);
                    } else {
                        assert(r2[j] == rules[j + 1]);
                    }
                }
            }
            law_first_match_wins(r2, default_effect, ctx, k - 1);
        }
    } else {
        assert forall|j: int| 0 <= j < rules.len() implies !rule_applies(#[trigger] rules[j], ctx) by {
            if rule_applies(rules[j], ctx) {
                lemma_some_first_match(rules, ctx, j);
            }
        }
        assert forall|j: int| 0 <= j < r2.len() implies !rule_applies(#[trigger] r2[j], ctx) by {
            if j < i {
                assert(r2[j] == rules[j]);
            } else {
                assert(r2[j] == rules[j + 1]);
            }
        }
        law_default_when_nothing_matches(rules, default_effect, ctx);
        law_default_when_nothing_matches(r2, default_effect, ctx);
    }
}

/// The first rule all of whose set conditions hold of the context decides:
/// its effect, its id as the matched rule, and its description (or a note
/// naming it) as the reason. A condition left unset holds of every context.
pub proof fn law_first_rule_whose_conditions_hold_decides(
    rules: Seq<PolicyRule>,
    default_effect: PolicyEffect,
    ctx: ContextView,
    i: int,
)
    requires
        0 <= i < rules.len(),
        rules[i].match_action_kind matches Some(k) ==> ctx.action_kind == k,
        rules[i].match_capability matches Some(c) ==> ctx.capabilities.contains(c),
        rules[i].match_tag matches Some(t) ==> ctx.tags.contains(t@),
        rules[i].match_plugin_id matches Some(p) ==> ctx.plugin_id == p@,
        rules[i].match_action_id matches Some(a) ==> ctx.action_id == a@,
        forall|j: int| #![trigger rules[j]] 0 <= j < i ==> {
            ||| (rules[j].match_action_kind matches Some(k) && ctx.action_kind != k)
            ||| (rules[j].match_capability matches Some(c) && !ctx.capabilities.contains(c))
            ||| (rules[j].match_tag matches Some(t) && !ctx.tags.contains(t@))
            ||| (rules[j].match_plugin_id matches Some(p) && ctx.plugin_id != p@)
            ||| (rules[j].match_action_id matches Some(a) && ctx.action_id != a@)
        },
    ensures
        policy_decision(rules, default_effect, ctx) == (DecisionView {
            effect: rules[i].effect,
            matched_rule: Some(rules[i].id@),
            reason: match rules[i].description {
                Some(d) => d@,
                None => "matched rule '"@ + rules[i].id@ + "'"@,
            },
        }),
{
    assert(is_first_match(rules, ctx, i)) by {
        assert forall|j: int| 0 <= j < i implies !rule_applies(#[trigger] rules[j], ctx) by {}
    }
    law_first_match_wins(rules, default_effect, ctx, i);
}

/// When every rule sets some condition that the context breaks, the
/// default effect decides, with no matched rule and a reason naming it.
pub proof fn law_default_decides_when_every_rule_fails(
    rules: Seq<PolicyRule>,
    default_effect: PolicyEffect,
    ctx: ContextView,
)
    requires
        forall|j: int| #![trigger rules[j]] 0 <= j < rules.len() ==> {
            ||| (rules[j].match_action_kind matches Some(k) && ctx.action_kind != k)
            ||| (rules[j].match_capability matches Some(c) && !ctx.capabilities.contains(c))
            ||| (rules[j].match_tag matches Some(t) && !ctx.tags.contains(t@))
            ||| (rules[j].match_plugin_id matches Some(p) && ctx.plugin_id != p@)
            ||| (rules[j].match_action_id matches Some(a) && ctx.action_id != a@)
        },
    ensures
        policy_decision(rules, default_effect, ctx) == (DecisionView {
            effect: default_effect,
            matched_rule: None,
            reason: "no rule matched, using default: "@ + default_effect.name(),
        }),
{
    assert forall|j: int| 0 <= j < rules.len() implies !rule_applies(#[trigger] rules[j], ctx) by {}
    law_default_when_nothing_matches(rules, default_effect, ctx);
}

/// When some rule applies, there is a first one that does.
proof fn lemma_some_first_match(rules: Seq<PolicyRule>, ctx: ContextView, i: int)
    requires
        0 <= i < rules.len(),
        rule_applies(rules[i], ctx),
    ensures
        exists|k: int| is_first_match(rules, ctx, k),
    decreases i,
{
    if forall|j: int| 0 <= j < i ==> !rule_applies(#[trigger] rules[j], ctx) {
        assert(is_first_match(rules, ctx, i));
    } else {
        let j = choose|j: int| 0 <= j < i && rule_applies(#[trigger] rules[j], ctx);
        lemma_some_first_match(rules, ctx, j);
    }
}

/// Whether `tags` holds a string equal to `tag`.
fn contains_tag(tags: &Vec<String>, tag: &String) -> (found: bool)
    ensures
        found == texts(tags@).contains(tag@),
{
    let mut i: usize = 0;
    while i < tags.len()
        invariant
            i <= tags.len(),
            forall|j: int| 0 <= j < i ==> tags@[j]@ != tag@,
        decreases tags.len() - i,
    {
        if tags[i] == *tag {
            assert(texts(tags@)[i as int] == tag@);
            return true;
        }
        i = i + 1;
    }
    assert forall|j: int| 0 <= j < texts(tags@).len() implies texts(tags@)[j] != tag@ by {
        assert(texts(tags@)[j] == tags@[j]@);
    }
    false
}

/// Whether `rule` matches `ctx`: every condition it sets must hold.
pub fn rule_matches(rule: &PolicyRule, ctx: &PolicyContext) -> (m: bool)
    ensures
        m == rule_applies(*rule, ctx@),
{
    if let Some(kind) = rule.match_action_kind {
        if ctx.action_kind != kind {
            return false;
        }
    }
    if let Some(cap) = rule.match_capability {
        if !contains_capability(&ctx.capabilities, cap) {
            return false;
        }
    }
    if let Some(tag) = &rule.match_tag {
        if !contains_tag(&ctx.tags, tag) {
            return false;
        }
    }
    if let Some(pid) = &rule.match_plugin_id {
        if ctx.plugin_id != *pid {
            return false;
        }
    }
    if let Some(aid) = &rule.match_action_id {
        if ctx.action_id != *aid {
            return false;
        }
    }
    true
}

/// Evaluates policy rules against the actions that are about to run.
pub struct PolicyEngine {
    config: PolicyConfig,
}

impl PolicyEngine {
    /// The policy the engine applies.
    pub closed spec fn policy(&self) -> PolicyConfig {
        self.config
    }

    /// An engine that applies `config`.
    pub fn new(config: PolicyConfig) -> (e: Self)
        ensures
            e.policy() == config,
    {
        PolicyEngine { config }
    }

    /// Decides for `ctx`: the first rule that matches decides, with its
    /// description (or a note naming it) as the reason; when none matches, the
    /// default effect decides.
    pub fn evaluate(&self, ctx: &PolicyContext) -> (d: PolicyDecision)
        ensures
            d@ == config_decision(self.policy(), ctx@),
    {
        let rules = &self.config.rules;
        let mut i: usize = 0;
        while i < rules.len()
            invariant
                i <= rules.len(),
                rules@ == self.config.rules@,
                forall|j: int| 0 <= j < i ==> !rule_applies(#[trigger] rules@[j], ctx@),
            decreases rules.len() - i,
        {
            let rule = &rules[i];
            if rule_matches(rule, ctx) {
                proof {
                    assert(is_first_match(rules@, ctx@, i as int));
                    law_first_match_wins(rules@, self.config.default_effect, ctx@, i as int);
                }
                let reason = match &rule.description {
                    Some(d) => d.clone(),
                    None => {
                        let mut s = String::from_str("matched rule '");
                        s.append(rule.id.as_str());
                        s.append("'");
                        s
                    },
                };
                return PolicyDecision {
                    effect: rule.effect,
                    matched_rule: Some(rule.id.clone()),
                    reason,
                };
            }
            i = i + 1;
        }
        proof {
            law_default_when_nothing_matches(rules@, self.config.default_effect, ctx@);
        }
        let mut reason = String::from_str("no rule matched, using default: ");
        reason.append(self.config.default_effect.as_str());
        PolicyDecision { effect: self.config.default_effect, matched_rule: None, reason }
    }
}

} // verus!

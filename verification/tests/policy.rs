use rusty::action::ActionKind;
use rusty::capability::Capability;
use rusty::policy::{PolicyConfig, PolicyEffect, PolicyRule};
use rusty::policy_engine::{rule_matches, PolicyContext, PolicyEngine};

fn make_ctx() -> PolicyContext {
    PolicyContext {
        plugin_id: "test-plugin".into(),
        action_id: "do-stuff".into(),
        action_kind: ActionKind::Mutating,
        capabilities: vec![Capability::NetworkFetch],
        tags: vec!["network".into()],
    }
}

fn rule(id: &str, effect: PolicyEffect) -> PolicyRule {
    PolicyRule {
        id: id.into(),
        description: None,
        effect,
        match_action_kind: None,
        match_capability: None,
        match_tag: None,
        match_plugin_id: None,
        match_action_id: None,
    }
}

#[test]
fn default_allows_when_no_rules() {
    let engine = PolicyEngine::new(PolicyConfig::default());
    let decision = engine.evaluate(&make_ctx());
    assert_eq!(decision.effect, PolicyEffect::Allow);
    assert!(decision.matched_rule.is_none());
}

#[test]
fn first_matching_rule_wins() {
    let config = PolicyConfig {
        default_effect: PolicyEffect::Allow,
        rules: vec![
            PolicyRule {
                id: "deny-mutating".into(),
                description: Some("Deny mutating actions".into()),
                effect: PolicyEffect::Deny,
                match_action_kind: Some(ActionKind::Mutating),
                match_capability: None,
                match_tag: None,
                match_plugin_id: None,
                match_action_id: None,
            },
            PolicyRule {
                id: "allow-network".into(),
                description: None,
                effect: PolicyEffect::Allow,
                match_action_kind: None,
                match_capability: Some(Capability::NetworkFetch),
                match_tag: None,
                match_plugin_id: None,
                match_action_id: None,
            },
        ],
    };
    let engine = PolicyEngine::new(config);
    let decision = engine.evaluate(&make_ctx());
    assert_eq!(decision.effect, PolicyEffect::Deny);
    assert_eq!(decision.matched_rule.as_deref(), Some("deny-mutating"));
}

#[test]
fn deny_by_default() {
    let config = PolicyConfig {
        default_effect: PolicyEffect::Deny,
        rules: vec![PolicyRule {
            id: "allow-read".into(),
            description: None,
            effect: PolicyEffect::Allow,
            match_action_kind: Some(ActionKind::ReadOnly),
            match_capability: None,
            match_tag: None,
            match_plugin_id: None,
            match_action_id: None,
        }],
    };
    let engine = PolicyEngine::new(config);
    // Mutating action should not match the read-only rule
    let decision = engine.evaluate(&make_ctx());
    assert_eq!(decision.effect, PolicyEffect::Deny);
}

#[test]
fn match_by_plugin_id() {
    let config = PolicyConfig {
        default_effect: PolicyEffect::Allow,
        rules: vec![PolicyRule {
            id: "deny-test-plugin".into(),
            description: None,
            effect: PolicyEffect::Deny,
            match_action_kind: None,
            match_capability: None,
            match_tag: None,
            match_plugin_id: Some("test-plugin".into()),
            match_action_id: None,
        }],
    };
    let engine = PolicyEngine::new(config);
    let decision = engine.evaluate(&make_ctx());
    assert_eq!(decision.effect, PolicyEffect::Deny);
}

#[test]
fn require_approval_for_destructive() {
    let config = PolicyConfig {
        default_effect: PolicyEffect::Allow,
        rules: vec![PolicyRule {
            id: "approve-destructive".into(),
            description: None,
            effect: PolicyEffect::RequireApproval,
            match_action_kind: Some(ActionKind::Destructive),
            match_capability: None,
            match_tag: None,
            match_plugin_id: None,
            match_action_id: None,
        }],
    };
    let engine = PolicyEngine::new(config);

    let mut ctx = make_ctx();
    ctx.action_kind = ActionKind::Destructive;
    let decision = engine.evaluate(&ctx);
    assert_eq!(decision.effect, PolicyEffect::RequireApproval);
}

#[test]
fn rule_with_multiple_conditions_requires_all() {
    let config = PolicyConfig {
        default_effect: PolicyEffect::Allow,
        rules: vec![PolicyRule {
            id: "deny-mutating-network".into(),
            description: None,
            effect: PolicyEffect::Deny,
            match_action_kind: Some(ActionKind::Mutating),
            match_capability: Some(Capability::NetworkFetch),
            match_tag: None,
            match_plugin_id: None,
            match_action_id: None,
        }],
    };
    let engine = PolicyEngine::new(config);

    // Both conditions met
    let decision = engine.evaluate(&make_ctx());
    assert_eq!(decision.effect, PolicyEffect::Deny);

    // Only action kind matches, missing capability
    let mut ctx2 = make_ctx();
    ctx2.capabilities.clear();
    let decision2 = engine.evaluate(&ctx2);
    assert_eq!(decision2.effect, PolicyEffect::Allow); // falls to default
}

#[test]
fn default_policy_allows_all() {
    let config = PolicyConfig::default();
    assert_eq!(config.default_effect, PolicyEffect::Allow);
    assert!(config.rules.is_empty());
}

#[test]
fn decision_reasons_name_the_rule_or_the_default() {
    let engine = PolicyEngine::new(PolicyConfig {
        default_effect: PolicyEffect::Deny,
        rules: vec![rule("by-tag", PolicyEffect::Allow)],
    });
    let decision = engine.evaluate(&make_ctx());
    assert_eq!(decision.reason, "matched rule 'by-tag'");
    assert_eq!(decision.matched_rule.as_deref(), Some("by-tag"));

    let engine = PolicyEngine::new(PolicyConfig { default_effect: PolicyEffect::RequireApproval, rules: vec![] });
    let decision = engine.evaluate(&make_ctx());
    assert_eq!(decision.reason, "no rule matched, using default: require-approval");
    assert_eq!(decision.effect, PolicyEffect::RequireApproval);
}

#[test]
fn rule_conditions_on_tag_and_action_id() {
    let mut by_tag = rule("tag", PolicyEffect::Deny);
    by_tag.match_tag = Some("network".into());
    assert!(rule_matches(&by_tag, &make_ctx()));
    by_tag.match_tag = Some("disk".into());
    assert!(!rule_matches(&by_tag, &make_ctx()));

    let mut by_action = rule("action", PolicyEffect::Deny);
    by_action.match_action_id = Some("do-stuff".into());
    assert!(rule_matches(&by_action, &make_ctx()));
    by_action.match_action_id = Some("do-other".into());
    assert!(!rule_matches(&by_action, &make_ctx()));

    // A rule with no condition matches everything.
    assert!(rule_matches(&rule("any", PolicyEffect::Allow), &make_ctx()));
}

#[test]
fn later_rules_are_not_consulted_after_a_match() {
    let mut skipped = rule("read-only", PolicyEffect::Deny);
    skipped.match_action_kind = Some(ActionKind::ReadOnly);
    let mut first = rule("first", PolicyEffect::RequireApproval);
    first.description = Some("held for review".into());
    let engine = PolicyEngine::new(PolicyConfig {
        default_effect: PolicyEffect::Allow,
        rules: vec![skipped, first, rule("second", PolicyEffect::Deny)],
    });
    let decision = engine.evaluate(&make_ctx());
    assert_eq!(decision.matched_rule.as_deref(), Some("first"));
    assert_eq!(decision.effect, PolicyEffect::RequireApproval);
    assert_eq!(decision.reason, "held for review");
}

#[test]
fn non_matching_rule_in_front_changes_nothing() {
    let mut skipped = rule("read-only", PolicyEffect::Deny);
    skipped.match_action_kind = Some(ActionKind::ReadOnly);
    let mut description = rule("tagged", PolicyEffect::RequireApproval);
    description.description = Some("network access needs a look".into());
    description.match_tag = Some("network".into());

    let without = PolicyEngine::new(PolicyConfig { default_effect: PolicyEffect::Allow, rules: vec![description.clone()] });
    let with = PolicyEngine::new(PolicyConfig { default_effect: PolicyEffect::Allow, rules: vec![skipped, description] });
    let a = without.evaluate(&make_ctx());
    let b = with.evaluate(&make_ctx());
    assert_eq!(a.effect, b.effect);
    assert_eq!(a.matched_rule, b.matched_rule);
    assert_eq!(a.reason, b.reason);
    assert_eq!(b.reason, "network access needs a look");
}

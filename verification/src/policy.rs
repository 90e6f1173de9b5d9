//! Policy configuration: rules that allow, deny or hold actions for approval.

use vstd::prelude::*;
use vstd::string::StringExecFns;

use crate::action::ActionKind;
use crate::capability::Capability;

verus! {

/// What a policy decides for an action.
#[derive(Debug, Clone, Copy, PartialEq, Eq, Structural)]
pub enum PolicyEffect {
    Allow,
    Deny,
    RequireApproval,
}

impl PolicyEffect {
    /// The kebab-case name of the effect.
    pub open spec fn name(self) -> Seq<char> {
        match self {
            PolicyEffect::Allow => "allow"@,
            PolicyEffect::Deny => "deny"@,
            PolicyEffect::RequireApproval => "require-approval"@,
        }
    }

    /// The kebab-case name of the effect.
    pub fn as_str(&self) -> (s: &'static str)
        ensures
            s@ == self.name(),
    {
        match self {
            PolicyEffect::Allow => "allow",
            PolicyEffect::Deny => "deny",
            PolicyEffect::RequireApproval => "require-approval",
        }
    }

    /// The kebab-case name of the effect, as an owned string.
    pub fn to_string(&self) -> (s: String)
        ensures
            s@ == self.name(),
    {
        String::from_str(self.as_str())
    }
}

impl Default for PolicyEffect {
    /// Actions are allowed unless a policy says otherwise.
    fn default() -> (e: Self)
        ensures
            e == PolicyEffect::Allow,
    {
        PolicyEffect::Allow
    }
}

/// One rule of a policy. Every condition that is set must hold of an action
/// for the rule to match it; a rule with no condition matches every action.
#[derive(Debug, Clone)]
pub struct PolicyRule {
    pub id: String,
    pub description: Option<String>,
    pub effect: PolicyEffect,
    pub match_action_kind: Option<ActionKind>,
    pub match_capability: Option<Capability>,
    pub match_tag: Option<String>,
    pub match_plugin_id: Option<String>,
    pub match_action_id: Option<String>,
}

/// A policy: rules tried in order, and the effect when none matches.
#[derive(Debug, Clone)]
pub struct PolicyConfig {
    pub default_effect: PolicyEffect,
    pub rules: Vec<PolicyRule>,
}

impl Default for PolicyConfig {
    /// The policy with no rule, which allows everything.
    fn default() -> (c: Self)
        ensures
            c.default_effect == PolicyEffect::Allow,
            c.rules@.len() == 0,
    {
        PolicyConfig { default_effect: PolicyEffect::Allow, rules: Vec::new() }
    }
}

} // verus!

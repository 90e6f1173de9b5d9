//! Actions: the operations a plugin exposes, with their kind and approval class.

use vstd::prelude::*;
use vstd::string::StringExecFns;

use crate::capability::Capability;
use crate::json::Json;

verus! {

/// How much an action may change the world.
#[derive(Debug, Clone, Copy, PartialEq, Eq, Hash, Structural)]
pub enum ActionKind {
    ReadOnly,
    Mutating,
    Destructive,
}

impl ActionKind {
    /// The kebab-case name of the kind.
    pub open spec fn name(self) -> Seq<char> {
        match self {
            ActionKind::ReadOnly => "read-only"@,
            ActionKind::Mutating => "mutating"@,
            ActionKind::Destructive => "destructive"@,
        }
    }

    /// The kebab-case name of the kind.
    pub fn as_str(&self) -> (s: &'static str)
        ensures
            s@ == self.name(),
    {
        match self {
            ActionKind::ReadOnly => "read-only",
            ActionKind::Mutating => "mutating",
            ActionKind::Destructive => "destructive",
        }
    }

    /// The kebab-case name of the kind, as an owned string.
    pub fn to_string(&self) -> (s: String)
        ensures
            s@ == self.name(),
    {
        String::from_str(self.as_str())
    }
}

/// Who has to approve an action before it runs.
#[derive(Debug, Clone, Copy, PartialEq, Eq, Hash, Structural)]
pub enum ApprovalClass {
    NoneRequired,
    AutoApprove,
    RequireHuman,
}

impl ApprovalClass {
    /// The kebab-case name of the approval class.
    pub open spec fn name(self) -> Seq<char> {
        match self {
            ApprovalClass::NoneRequired => "none-required"@,
            ApprovalClass::AutoApprove => "auto-approve"@,
            ApprovalClass::RequireHuman => "require-human"@,
        }
    }

    /// The kebab-case name of the approval class.
    pub fn as_str(&self) -> (s: &'static str)
        ensures
            s@ == self.name(),
    {
        match self {
            ApprovalClass::NoneRequired => "none-required",
            ApprovalClass::AutoApprove => "auto-approve",
            ApprovalClass::RequireHuman => "require-human",
        }
    }

    /// The kebab-case name of the approval class, as an owned string.
    pub fn to_string(&self) -> (s: String)
        ensures
            s@ == self.name(),
    {
        String::from_str(self.as_str())
    }
}

/// An action declared in a plugin manifest, with the JSON schemas of its input
/// and output.
#[derive(Debug, Clone)]
pub struct ActionDef {
    pub id: String,
    pub title: String,
    pub description: String,
    pub input_schema: Json,
    pub output_schema: Json,
    pub kind: ActionKind,
    pub approval: ApprovalClass,
    pub tags: Vec<String>,
    pub capabilities: Vec<Capability>,
}

} // verus!

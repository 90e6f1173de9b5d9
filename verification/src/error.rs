//! The errors of manifest handling, schema checks, the engine and the policy.

use vstd::prelude::*;
use vstd::string::StringExecFns;

use crate::text::{decimal, decimal_string, join, joined, texts};

verus! {

/// The error that the `toml` crate reports for a document it cannot read.
#[verifier::external_type_specification]
#[verifier::external_body]
pub struct ExTomlError(toml::de::Error);

/// The `Display` text of a `toml::de::Error`. Nothing is claimed of the text.
#[verifier::external_body]
fn toml_error_text(e: &toml::de::Error) -> String {
    e.to_string()
}

/// Why a plugin manifest was refused.
#[derive(Debug)]
pub enum ManifestError {
    /// The text is not a TOML document of the manifest's shape.
    Parse(toml::de::Error),
    /// The manifest was read but breaks one of its rules.
    Validation(String),
}

impl ManifestError {
    /// The message of the error. That of a parse error is its prefix followed
    /// by the text that the `toml` crate gives the error.
    pub fn to_string(&self) -> (s: String)
        ensures
            self matches ManifestError::Validation(m) ==> s@ == "manifest validation failed: "@ + m@,
            self is Parse ==> "failed to parse manifest: "@.is_prefix_of(s@),
    {
        match self {
            ManifestError::Parse(e) => {
                let mut s = String::from_str("failed to parse manifest: ");
                let ghost prefix = s@;
                let t = toml_error_text(e);
                s.append(t.as_str());
                assert(s@.subrange(0, prefix.len() as int) =~= prefix);
                s
            },
            ManifestError::Validation(m) => {
                let mut s = String::from_str("manifest validation failed: ");
                s.append(m.as_str());
                s
            },
        }
    }
}

/// Why an input was refused by a JSON schema.
#[derive(Debug, Clone)]
pub enum SchemaError {
    /// The schema itself could not be compiled.
    InvalidSchema(String),
    /// The instance broke the schema; one message per violation.
    ValidationFailed(Vec<String>),
}

impl SchemaError {
    /// The message of the error.
    pub open spec fn message(self) -> Seq<char> {
        match self {
            SchemaError::InvalidSchema(m) => "invalid JSON schema: "@ + m@,
            SchemaError::ValidationFailed(errs) => "validation failed: "@ + joined(texts(errs@), "; "@),
        }
    }

    /// The message of the error.
    pub fn to_string(&self) -> (s: String)
        ensures
            s@ == self.message(),
    {
        match self {
            SchemaError::InvalidSchema(m) => {
                let mut s = String::from_str("invalid JSON schema: ");
                s.append(m.as_str());
                s
            },
            SchemaError::ValidationFailed(errs) => {
                let mut s = String::from_str("validation failed: ");
                let j = join(errs, "; ");
                s.append(j.as_str());
                s
            },
        }
    }
}

/// Why the engine could not load a plugin or run an action.
#[derive(Debug, Clone)]
pub enum EngineError {
    PluginNotFound(String),
    ActionNotFound { plugin_id: String, action_id: String },
    LoadFailed(String),
    InitFailed(String),
    /// The action ran longer than the limit, in milliseconds.
    Timeout(u64),
    Cancelled,
    Trap(String),
    ActionError { code: String, message: String },
    Other(String),
}

impl EngineError {
    /// The message of the error.
    pub open spec fn message(self) -> Seq<char> {
        match self {
            EngineError::PluginNotFound(id) => "plugin not found: "@ + id@,
            EngineError::ActionNotFound { plugin_id, action_id } =>
                "action not found: "@ + plugin_id@ + "/"@ + action_id@,
            EngineError::LoadFailed(m) => "plugin load failed: "@ + m@,
            EngineError::InitFailed(m) => "plugin init failed: "@ + m@,
            EngineError::Timeout(ms) => "execution timed out after "@ + decimal(ms as nat) + "ms"@,
            EngineError::Cancelled => "execution cancelled"@,
            EngineError::Trap(m) => "wasm trap: "@ + m@,
            EngineError::ActionError { code, message } =>
                "action returned error: ["@ + code@ + "] "@ + message@,
            EngineError::Other(m) => m@,
        }
    }

    /// The message of the error.
    pub fn to_string(&self) -> (s: String)
        ensures
            s@ == self.message(),
    {
        match self {
            EngineError::PluginNotFound(id) => {
                let mut s = String::from_str("plugin not found: ");
                s.append(id.as_str());
                s
            },
            EngineError::ActionNotFound { plugin_id, action_id } => {
                let mut s = String::from_str("action not found: ");
                s.append(plugin_id.as_str());
                s.append("/");
                s.append(action_id.as_str());
                s
            },
            EngineError::LoadFailed(m) => {
                let mut s = String::from_str("plugin load failed: ");
                s.append(m.as_str());
                s
            },
            EngineError::InitFailed(m) => {
                let mut s = String::from_str("plugin init failed: ");
                s.append(m.as_str());
                s
            },
            EngineError::Timeout(ms) => {
                let mut s = String::from_str("execution timed out after ");
                let d = decimal_string(*ms);
                s.append(d.as_str());
                s.append("ms");
                s
            },
            EngineError::Cancelled => String::from_str("execution cancelled"),
            EngineError::Trap(m) => {
                let mut s = String::from_str("wasm trap: ");
                s.append(m.as_str());
                s
            },
            EngineError::ActionError { code, message } => {
                let mut s = String::from_str("action returned error: [");
                s.append(code.as_str());
                s.append("] ");
                s.append(message.as_str());
                s
            },
            EngineError::Other(m) => m.clone(),
        }
    }
}

/// Why the policy stopped an action.
#[derive(Debug, Clone)]
pub enum PolicyError {
    Denied(String),
    ApprovalRequired(String),
}

impl PolicyError {
    /// The message of the error.
    pub open spec fn message(self) -> Seq<char> {
        match self {
            PolicyError::Denied(m) => "policy denied: "@ + m@,
            PolicyError::ApprovalRequired(m) => "approval required: "@ + m@,
        }
    }

    /// The message of the error.
    pub fn to_string(&self) -> (s: String)
        ensures
            s@ == self.message(),
    {
        match self {
            PolicyError::Denied(m) => {
                let mut s = String::from_str("policy denied: ");
                s.append(m.as_str());
                s
            },
            PolicyError::ApprovalRequired(m) => {
                let mut s = String::from_str("approval required: ");
                s.append(m.as_str());
                s
            },
        }
    }
}

} // verus!

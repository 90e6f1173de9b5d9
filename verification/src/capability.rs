//! The host capabilities a plugin or an action may ask for.

use vstd::prelude::*;
use vstd::string::StringExecFns;

verus! {

/// A side effect that the host may grant to a plugin.
#[derive(Debug, Clone, Copy, PartialEq, Eq, Hash, Structural)]
pub enum Capability {
    FilesystemRead,
    FilesystemWrite,
    NetworkFetch,
    Sqlite,
    KeyValue,
    Secrets,
    EnvVars,
    Clock,
    Artifacts,
    Events,
}

impl Capability {
    /// The kebab-case name of the capability, as manifests write it.
    pub open spec fn name(self) -> Seq<char> {
        match self {
            Capability::FilesystemRead => "filesystem-read"@,
            Capability::FilesystemWrite => "filesystem-write"@,
            Capability::NetworkFetch => "network-fetch"@,
            Capability::Sqlite => "sqlite"@,
            Capability::KeyValue => "key-value"@,
            Capability::Secrets => "secrets"@,
            Capability::EnvVars => "env-vars"@,
            Capability::Clock => "clock"@,
            Capability::Artifacts => "artifacts"@,
            Capability::Events => "events"@,
        }
    }

    /// The kebab-case name of the capability.
    pub fn as_str(&self) -> (s: &'static str)
        ensures
            s@ == self.name(),
    {
        match self {
            Capability::FilesystemRead => "filesystem-read",
            Capability::FilesystemWrite => "filesystem-write",
            Capability::NetworkFetch => "network-fetch",
            Capability::Sqlite => "sqlite",
            Capability::KeyValue => "key-value",
            Capability::Secrets => "secrets",
            Capability::EnvVars => "env-vars",
            Capability::Clock => "clock",
            Capability::Artifacts => "artifacts",
            Capability::Events => "events",
        }
    }

    /// The kebab-case name of the capability, as an owned string.
    pub fn to_string(&self) -> (s: String)
        ensures
            s@ == self.name(),
    {
        String::from_str(self.as_str())
    }
}

/// Whether `caps` holds `cap`.
pub fn contains_capability(caps: &Vec<Capability>, cap: Capability) -> (found: bool)
    ensures
        found == caps@.contains(cap),
{
    let mut i: usize = 0;
    while i < caps.len()
        invariant
            i <= caps.len(),
            forall|j: int| 0 <= j < i ==> caps@[j] != cap,
        decreases caps.len() - i,
    {
        if caps[i] == cap {
            assert(caps@[i as int] == cap);
            return true;
        }
        i = i + 1;
    }
    false
}

} // verus!

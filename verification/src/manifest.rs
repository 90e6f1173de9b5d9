//! Plugin manifests: the metadata, actions and capabilities a plugin declares,
//! and the rules a manifest must keep.

use vstd::prelude::*;
use vstd::string::StringExecFns;

use crate::action::ActionDef;
use crate::capability::{contains_capability, Capability};
use crate::error::ManifestError;

verus! {

/// A plugin's manifest (`rusty-plugin.toml`).
#[derive(Debug, Clone)]
pub struct PluginManifest {
    pub plugin: PluginMeta,
    pub actions: Vec<ActionDef>,
    pub capabilities: Vec<Capability>,
}

/// The metadata of a plugin.
#[derive(Debug, Clone)]
pub struct PluginMeta {
    pub id: String,
    pub name: String,
    pub version: String,
    pub author: String,
    pub description: String,
    pub runtime_compat: String,
}

/// The runtime compatibility a manifest claims when it names none.
pub fn default_runtime_compat() -> (s: String)
    ensures
        s@ == "0.1"@,
{
    String::from_str("0.1")
}

/// Whether capability `j` of action `i` is missing from the plugin-level list.
pub open spec fn capability_undeclared(m: PluginManifest, i: int, j: int) -> bool {
    &&& 0 <= i < m.actions@.len()
    &&& 0 <= j < m.actions@[i].capabilities@.len()
    &&& !m.capabilities@.contains(m.actions@[i].capabilities@[j])
}

/// Whether (`i`, `j`) is the first undeclared action capability, actions taken
/// in order and each action's capabilities in order.
pub open spec fn first_undeclared(m: PluginManifest, i: int, j: int) -> bool {
    &&& capability_undeclared(m, i, j)
    &&& forall|k: int, l: int| 0 <= k < i ==> !capability_undeclared(m, k, l)
    &&& forall|l: int| 0 <= l < j ==> !capability_undeclared(m, i, l)
}

/// The message for an action that asks for a capability the plugin did not declare.
pub open spec fn undeclared_message(action_id: Seq<char>, cap: Capability) -> Seq<char> {
    "action '"@ + action_id + "' requests capability '"@ + cap.name() + "' not declared at plugin level"@
}

/// Why `m` breaks the manifest rules, checked in this order: the plugin's id,
/// name and version must be non-empty, every action must have an id, and every
/// capability an action asks for must be declared by the plugin. `None` when `m`
/// keeps them all.
pub open spec fn manifest_violation(m: PluginManifest) -> Option<Seq<char>> {
    if m.plugin.id@.len() == 0 {
        Some("plugin.id is required"@)
    } else if m.plugin.name@.len() == 0 {
        Some("plugin.name is required"@)
    } else if m.plugin.version@.len() == 0 {
        Some("plugin.version is required"@)
    } else if exists|i: int| 0 <= i < m.actions@.len() && (#[trigger] m.actions@[i]).id@.len() == 0 {
        Some("action.id is required for all actions"@)
    } else if exists|i: int, j: int| first_undeclared(m, i, j) {
        let (i, j) = choose|i: int, j: int| first_undeclared(m, i, j);
        Some(undeclared_message(m.actions@[i].id@, m.actions@[i].capabilities@[j]))
    } else {
        None
    }
}

/// There is at most one first undeclared capability.
proof fn lemma_first_undeclared_unique(m: PluginManifest, i: int, j: int, k: int, l: int)
    requires
        first_undeclared(m, i, j),
        first_undeclared(m, k, l),
    ensures
        i == k && j == l,
{
    if i < k {
        assert(!capability_undeclared(m, i, j));
    } else if k < i {
        assert(!capability_undeclared(m, k, l));
    } else if j < l {
        assert(!capability_undeclared(m, i, j));
    } else if l < j {
        assert(!capability_undeclared(m, k, l));
    }
}

/// When some action capability is undeclared, there is a first one.
proof fn lemma_some_first_undeclared(m: PluginManifest, i: int, j: int)
    requires
        capability_undeclared(m, i, j),
    ensures
        exists|a: int, b: int| first_undeclared(m, a, b),
    decreases i, j,
{
    if exists|k: int, l: int| 0 <= k < i && capability_undeclared(m, k, l) {
        let (k, l) = choose|k: int, l: int| 0 <= k < i && capability_undeclared(m, k, l);
        lemma_some_first_undeclared(m, k, l);
    } else if exists|l: int| 0 <= l < j && capability_undeclared(m, i, l) {
        let l = choose|l: int| 0 <= l < j && capability_undeclared(m, i, l);
        lemma_some_first_undeclared(m, i, l);
    } else {
        assert(first_undeclared(m, i, j));
    }
}

/// A manifest passes validation exactly when its plugin id, name and version
/// and every action id are non-empty and it declares, at plugin level, every
/// capability that any of its actions asks for.
pub proof fn law_valid_manifest_declares_capabilities(m: PluginManifest)
    ensures
        manifest_violation(m) is None <==> {
            &&& m.plugin.id@.len() > 0
            &&& m.plugin.name@.len() > 0
            &&& m.plugin.version@.len() > 0
            &&& forall|i: int| 0 <= i < m.actions@.len() ==> (#[trigger] m.actions@[i]).id@.len() > 0
            &&& forall|i: int, j: int|
                0 <= i < m.actions@.len() && 0 <= j < m.actions@[i].capabilities@.len()
                    ==> m.capabilities@.contains(#[trigger] m.actions@[i].capabilities@[j])
        },
{
    if manifest_violation(m) is None {
        lemma_valid_manifest_keeps_rules(m);
    } else if {
        &&& m.plugin.id@.len() > 0
        &&& m.plugin.name@.len() > 0
        &&& m.plugin.version@.len() > 0
        &&& forall|i: int| 0 <= i < m.actions@.len() ==> (#[trigger] m.actions@[i]).id@.len() > 0
        &&& forall|i: int, j: int|
            0 <= i < m.actions@.len() && 0 <= j < m.actions@[i].capabilities@.len()
                ==> m.capabilities@.contains(#[trigger] m.actions@[i].capabilities@[j])
    } {
        if exists|i: int, j: int| first_undeclared(m, i, j) {
            let (i, j) = choose|i: int, j: int| first_undeclared(m, i, j);
            assert(m.capabilities@.contains(m.actions@[i].capabilities@[j]));
        }
    }
}

/// A manifest that passes validation keeps every rule.
proof fn lemma_valid_manifest_keeps_rules(m: PluginManifest)
    requires
        manifest_violation(m) is None,
    ensures
        m.plugin.id@.len() > 0,
        m.plugin.name@.len() > 0,
        m.plugin.version@.len() > 0,
        forall|i: int| 0 <= i < m.actions@.len() ==> (#[trigger] m.actions@[i]).id@.len() > 0,
        forall|i: int, j: int|
            0 <= i < m.actions@.len() && 0 <= j < m.actions@[i].capabilities@.len()
                ==> m.capabilities@.contains(#[trigger] m.actions@[i].capabilities@[j]),
{
    assert forall|i: int, j: int|
        0 <= i < m.actions@.len() && 0 <= j < m.actions@[i].capabilities@.len()
            implies m.capabilities@.contains(#[trigger] m.actions@[i].capabilities@[j]) by {
        if !m.capabilities@.contains(m.actions@[i].capabilities@[j]) {
            lemma_some_first_undeclared(m, i, j);
        }
    }
}

/// Whether `actions[i]` is the first action whose id is `id`.
pub open spec fn is_first_action(actions: Seq<ActionDef>, id: Seq<char>, i: int) -> bool {
    &&& 0 <= i < actions.len()
    &&& actions[i].id@ == id
    &&& forall|j: int| 0 <= j < i ==> (#[trigger] actions[j]).id@ != id
}

/// The index of the first action whose id is `id`, if any.
pub open spec fn action_index(actions: Seq<ActionDef>, id: Seq<char>) -> Option<int> {
    if exists|i: int| is_first_action(actions, id, i) {
        Some(choose|i: int| is_first_action(actions, id, i))
    } else {
        None
    }
}

/// There is at most one first action with a given id.
pub proof fn lemma_first_action_unique(actions: Seq<ActionDef>, id: Seq<char>, i: int, k: int)
    requires
        is_first_action(actions, id, i),
        is_first_action(actions, id, k),
    ensures
        i == k,
{
    if i < k {
        assert(actions[i].id@ != id);
    } else if k < i {
        assert(actions[k].id@ != id);
    }
}

impl PluginManifest {
    /// Checks the manifest rules (see `manifest_violation`): `Ok` exactly when
    /// the manifest keeps them, else a validation error with the first broken rule.
    pub fn validate(&self) -> (r: Result<(), ManifestError>)
        ensures
            match manifest_violation(*self) {
                None => r is Ok,
                Some(msg) => r matches Err(ManifestError::Validation(m)) && m@ == msg,
            },
    {
        if self.plugin.id.as_str().is_empty() {
            return Err(ManifestError::Validation(String::from_str("plugin.id is required")));
        }
        if self.plugin.name.as_str().is_empty() {
            return Err(ManifestError::Validation(String::from_str("plugin.name is required")));
        }
        if self.plugin.version.as_str().is_empty() {
            return Err(ManifestError::Validation(String::from_str("plugin.version is required")));
        }
        let mut i: usize = 0;
        while i < self.actions.len()
            invariant
                i <= self.actions.len(),
                self.plugin.id@.len() > 0,
                self.plugin.name@.len() > 0,
                self.plugin.version@.len() > 0,
                forall|k: int| 0 <= k < i ==> (#[trigger] self.actions@[k]).id@.len() > 0,
            decreases self.actions.len() - i,
        {
            if self.actions[i].id.as_str().is_empty() {
                proof {
                    assert(self.actions@[i as int].id@.len() == 0);
                    assert(exists|k: int| 0 <= k < self.actions@.len() && (#[trigger] self.actions@[k]).id@.len() == 0);
                    assert(manifest_violation(*self) == Some("action.id is required for all actions"@));
                }
                return Err(ManifestError::Validation(String::from_str("action.id is required for all actions")));
            }
            i = i + 1;
        }
        let ghost m = *self;
        let mut i: usize = 0;
        while i < self.actions.len()
            invariant
                i <= self.actions.len(),
                m == *self,
                self.plugin.id@.len() > 0,
                self.plugin.name@.len() > 0,
                self.plugin.version@.len() > 0,
                forall|k: int| 0 <= k < self.actions@.len() ==> (#[trigger] self.actions@[k]).id@.len() > 0,
                forall|k: int, l: int| 0 <= k < i ==> !capability_undeclared(m, k, l),
            decreases self.actions.len() - i,
        {
            let action = &self.actions[i];
            let mut j: usize = 0;
            while j < action.capabilities.len()
                invariant
                    i < self.actions.len(),
                    j <= action.capabilities.len(),
                    m == *self,
                    self.plugin.id@.len() > 0,
                    self.plugin.name@.len() > 0,
                    self.plugin.version@.len() > 0,
                    *action == self.actions@[i as int],
                    forall|k: int| 0 <= k < self.actions@.len() ==> (#[trigger] self.actions@[k]).id@.len() > 0,
                    forall|k: int, l: int| 0 <= k < i ==> !capability_undeclared(m, k, l),
                    forall|l: int| 0 <= l < j ==> !capability_undeclared(m, i as int, l),
                decreases action.capabilities.len() - j,
            {
                let cap = action.capabilities[j];
                if !contains_capability(&self.capabilities, cap) {
                    proof {
                        assert(first_undeclared(m, i as int, j as int));
                        let (a, b) = choose|a: int, b: int| first_undeclared(m, a, b);
                        lemma_first_undeclared_unique(m, i as int, j as int, a, b);
                        assert(!(exists|k: int| 0 <= k < m.actions@.len() && (#[trigger] m.actions@[k]).id@.len() == 0));
                        assert(manifest_violation(m) == Some(undeclared_message(m.actions@[i as int].id@, cap)));
                    }
                    let mut msg = String::from_str("action '");
                    msg.append(action.id.as_str());
                    msg.append("' requests capability '");
                    msg.append(cap.as_str());
                    msg.append("' not declared at plugin level");
                    return Err(ManifestError::Validation(msg));
                }
                j = j + 1;
            }
            i = i + 1;
        }
        proof {
            if exists|a: int, b: int| first_undeclared(m, a, b) {
                let (a, b) = choose|a: int, b: int| first_undeclared(m, a, b);
                assert(capability_undeclared(m, a, b));
            }
        }
        Ok(())
    }

    /// The first action whose id is `action_id`, if any.
    pub fn find_action(&self, action_id: &str) -> (r: Option<&ActionDef>)
        ensures
            match action_index(self.actions@, action_id@) {
                Some(i) => r matches Some(a) && *a == self.actions@[i],
                None => r is None,
            },
    {
        let wanted = String::from_str(action_id);
        let mut i: usize = 0;
        while i < self.actions.len()
            invariant
                i <= self.actions.len(),
                wanted@ == action_id@,
                forall|j: int| 0 <= j < i ==> (#[trigger] self.actions@[j]).id@ != action_id@,
            decreases self.actions.len() - i,
        {
            if self.actions[i].id == wanted {
                proof {
                    assert(is_first_action(self.actions@, action_id@, i as int));
                    let k = choose|k: int| is_first_action(self.actions@, action_id@, k);
                    lemma_first_action_unique(self.actions@, action_id@, i as int, k);
                }
                return Some(&self.actions[i]);
            }
            i = i + 1;
        }
        proof {
            if exists|k: int| is_first_action(self.actions@, action_id@, k) {
                let k = choose|k: int| is_first_action(self.actions@, action_id@, k);
                assert(self.actions@[k].id@ == action_id@);
            }
        }
        None
    }

    /// The capabilities declared at plugin level.
    pub fn all_capabilities(&self) -> (caps: &[Capability])
        ensures
            caps@ == self.capabilities@,
    {
        self.capabilities.as_slice()
    }
}

} // verus!

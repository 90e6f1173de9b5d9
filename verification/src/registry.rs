//! The registry of installed plugins, keyed by plugin id.

use vstd::prelude::*;
use vstd::string::{StrSliceExecFns, StringExecFns};

use crate::plugin::LoadedPlugin;

verus! {

/// The path of the entry `name` in the directory `dir`, as `Path::join` forms
/// it for a relative `name`: a `/` goes between them unless `dir` is empty or
/// already ends with one.
pub open spec fn child_path(dir: Seq<char>, name: Seq<char>) -> Seq<char> {
    if dir.len() == 0 || dir.last() == '/' {
        dir + name
    } else {
        dir + "/"@ + name
    }
}

/// The path of the entry `name` in the directory `dir`.
pub fn join_path(dir: &str, name: &str) -> (p: String)
    ensures
        p@ == child_path(dir@, name@),
{
    let n = dir.unicode_len();
    let mut p = String::from_str(dir);
    if n == 0 || dir.get_char(n - 1) == '/' {
        p.append(name);
    } else {
        p.append("/");
        p.append(name);
    }
    p
}

/// The id of a loaded plugin.
pub open spec fn id_of<W>(p: LoadedPlugin<W>) -> Seq<char> {
    p.manifest.plugin.id@
}

/// Whether no two plugins of `s` share an id.
pub open spec fn distinct_ids<W>(s: Seq<LoadedPlugin<W>>) -> bool {
    forall|i: int, j: int| 0 <= i < j < s.len() ==> id_of(#[trigger] s[i]) != id_of(#[trigger] s[j])
}

/// Among plugins with distinct ids, at most one carries a given id.
pub proof fn lemma_unique<W>(s: Seq<LoadedPlugin<W>>, i: int, j: int)
    requires
        distinct_ids(s),
        0 <= i < s.len(),
        0 <= j < s.len(),
        id_of(s[i]) == id_of(s[j]),
    ensures
        i == j,
{
    if i < j {
        assert(id_of(s[i]) != id_of(s[j]));
    } else if j < i {
        assert(id_of(s[j]) != id_of(s[i]));
    }
}

/// The installed plugins, at most one per id, in the order they were first installed.
pub struct PluginRegistry<W> {
    plugins_dir: String,
    plugins: Vec<LoadedPlugin<W>>,
}

impl<W> PluginRegistry<W> {
    /// No two installed plugins share an id.
    #[verifier::type_invariant]
    spec fn ids_distinct(self) -> bool {
        distinct_ids(self.plugins@)
    }

    /// The directory plugins are installed in.
    pub closed spec fn dir(&self) -> Seq<char> {
        self.plugins_dir@
    }

    /// The installed plugins, in order.
    pub closed spec fn entries(&self) -> Seq<LoadedPlugin<W>> {
        self.plugins@
    }

    /// The plugin installed under `id`, if any.
    pub open spec fn lookup(&self, id: Seq<char>) -> Option<LoadedPlugin<W>> {
        if exists|i: int| 0 <= i < self.entries().len() && id_of(#[trigger] self.entries()[i]) == id {
            Some(self.entries()[choose|i: int| 0 <= i < self.entries().len() && id_of(#[trigger] self.entries()[i]) == id])
        } else {
            None
        }
    }

    /// The ids of the installed plugins, in order.
    pub open spec fn ids(&self) -> Seq<Seq<char>> {
        self.entries().map_values(|p: LoadedPlugin<W>| id_of(p))
    }

    /// An empty registry for the home directory `home_dir`; plugins go to its
    /// `plugins` directory.
    pub fn new(home_dir: &str) -> (r: Self)
        ensures
            r.dir() == child_path(home_dir@, "plugins"@),
            r.entries().len() == 0,
    {
        PluginRegistry { plugins_dir: join_path(home_dir, "plugins"), plugins: Vec::new() }
    }

    /// The directory plugins are installed in.
    pub fn plugins_dir(&self) -> (d: &str)
        ensures
            d@ == self.dir(),
    {
        self.plugins_dir.as_str()
    }

    /// The position of the plugin installed under `id`, if any.
    fn position(&self, id: &String) -> (r: Option<usize>)
        ensures
            match r {
                Some(i) => i < self.entries().len() && id_of(self.entries()[i as int]) == id@,
                None => forall|i: int| 0 <= i < self.entries().len() ==> id_of(#[trigger] self.entries()[i]) != id@,
            },
    {
        let mut i: usize = 0;
        while i < self.plugins.len()
            invariant
                i <= self.plugins.len(),
                forall|k: int| 0 <= k < i ==> id_of(#[trigger] self.plugins@[k]) != id@,
            decreases self.plugins.len() - i,
        {
            if self.plugins[i].manifest.plugin.id == *id {
                return Some(i);
            }
            i = i + 1;
        }
        None
    }

    /// The plugin installed under `plugin_id`, if any.
    pub fn get(&self, plugin_id: &str) -> (r: Option<&LoadedPlugin<W>>)
        ensures
            match self.lookup(plugin_id@) {
                Some(p) => r matches Some(q) && *q == p,
                None => r is None,
            },
    {
        let wanted = String::from_str(plugin_id);
        match self.position(&wanted) {
            Some(i) => {
                proof {
                    let k = choose|k: int| 0 <= k < self.entries().len() && id_of(#[trigger] self.entries()[k]) == plugin_id@;
                    use_type_invariant(self);
                    lemma_unique(self.plugins@, i as int, k);
                }
                Some(&self.plugins[i])
            },
            None => None,
        }
    }

    /// Every installed plugin, in order.
    pub fn list(&self) -> (v: Vec<&LoadedPlugin<W>>)
        ensures
            v@.len() == self.entries().len(),
            forall|i: int| 0 <= i < v@.len() ==> *v@[i] == self.entries()[i],
    {
        let mut v: Vec<&LoadedPlugin<W>> = Vec::new();
        let mut i: usize = 0;
        while i < self.plugins.len()
            invariant
                i <= self.plugins.len(),
                v@.len() == i,
                forall|k: int| 0 <= k < i ==> *v@[k] == self.plugins@[k],
            decreases self.plugins.len() - i,
        {
            v.push(&self.plugins[i]);
            i = i + 1;
        }
        v
    }

    /// Installs `plugin` under its id, in place of any plugin installed under
    /// the same id; the other plugins stay as they were.
    pub fn insert(&mut self, plugin: LoadedPlugin<W>)
        ensures
            final(self).dir() == old(self).dir(),
            final(self).lookup(id_of(plugin)) == Some(plugin),
            forall|id: Seq<char>| id != id_of(plugin) ==> #[trigger] final(self).lookup(id) == old(self).lookup(id),
            old(self).lookup(id_of(plugin)) is Some ==> final(self).entries().len() == old(self).entries().len(),
            old(self).lookup(id_of(plugin)) is None ==> final(self).entries().len() == old(self).entries().len() + 1,
    {
        proof {
            use_type_invariant(&*self);
        }
        let ghost new_id = id_of(plugin);
        let ghost before = self.plugins@;
        let id = plugin.manifest.plugin.id.clone();
        let found = self.position(&id);
        let mut plugins: Vec<LoadedPlugin<W>> = Vec::new();
        std::mem::swap(&mut plugins, &mut self.plugins);
        let idx: usize;
        match found {
            Some(i) => {
                plugins.set(i, plugin);
                idx = i;
            },
            None => {
                idx = plugins.len();
                plugins.push(plugin);
            },
        }
        proof {
            let after = plugins@;
            assert forall|a: int, b: int| 0 <= a < b < after.len() implies
                id_of(#[trigger] after[a]) != id_of(#[trigger] after[b]) by {
                if a != idx && b != idx {
                    assert(after[a] == before[a] && after[b] == before[b]);
                } else if a == idx {
                    assert(after[b] == before[b]);
                } else {
                    assert(after[a] == before[a]);
                }
            }
        }
        self.plugins = plugins;
        proof {
            let after = self.plugins@;
            assert(after[idx as int] == plugin);
            assert forall|k: int| 0 <= k < after.len() && k != idx implies after[k] == before[k] by {}
            // The new id is found, at `idx`.
            assert(0 <= idx < self.entries().len() && id_of(self.entries()[idx as int]) == new_id);
            let k = choose|k: int| 0 <= k < self.entries().len() && id_of(#[trigger] self.entries()[k]) == new_id;
            lemma_unique(self.plugins@, idx as int, k);
            // Other ids are found exactly where they were.
            assert forall|other: Seq<char>| other != new_id implies #[trigger] self.lookup(other) == old(self).lookup(other) by {
                if exists|k: int| 0 <= k < before.len() && id_of(#[trigger] before[k]) == other {
                    let k = choose|k: int| 0 <= k < before.len() && id_of(#[trigger] before[k]) == other;
                    assert(k != idx);
                    assert(self.entries()[k] == before[k]);
                    let j = choose|j: int| 0 <= j < self.entries().len() && id_of(#[trigger] self.entries()[j]) == other;
                    lemma_unique(self.plugins@, k, j);
                }
                if exists|j: int| 0 <= j < after.len() && id_of(#[trigger] after[j]) == other {
                    let j = choose|j: int| 0 <= j < after.len() && id_of(#[trigger] after[j]) == other;
                    assert(j != idx);
                    assert(old(self).entries()[j] == after[j]);
                }
            }
            if old(self).lookup(new_id) is Some {
                let j = choose|j: int| 0 <= j < before.len() && id_of(#[trigger] before[j]) == new_id;
                assert(idx < before.len());
            }
        }
    }
}

} // verus!

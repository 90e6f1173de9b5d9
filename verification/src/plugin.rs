//! Loaded plugins: a manifest together with the runtime's prepared module.

use vstd::prelude::*;
use vstd::string::StringExecFns;

use crate::manifest::PluginManifest;

verus! {

/// The name of the manifest file in a plugin's directory.
pub fn manifest_file_name() -> (s: &'static str)
    ensures
        s@ == "rusty-plugin.toml"@,
{
    "rusty-plugin.toml"
}

/// A plugin ready to run: its validated manifest and the runtime's
/// pre-instantiated module `pre`.
pub struct LoadedPlugin<W> {
    pub manifest: PluginManifest,
    pub pre: W,
}

impl<W> LoadedPlugin<W> {
    /// The plugin's id, from its manifest.
    pub fn plugin_id(&self) -> (id: &str)
        ensures
            id@ == self.manifest.plugin.id@,
    {
        self.manifest.plugin.id.as_str()
    }

    /// The name of the WASM file the plugin ships: its id with `.wasm` appended.
    pub fn wasm_file_name(manifest: &PluginManifest) -> (name: String)
        ensures
            name@ == manifest.plugin.id@ + ".wasm"@,
    {
        let mut name = manifest.plugin.id.clone();
        name.append(".wasm");
        name
    }
}

} // verus!

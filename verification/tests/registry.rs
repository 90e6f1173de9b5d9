use rusty::manifest::{PluginManifest, PluginMeta};
use rusty::plugin::{manifest_file_name, LoadedPlugin};
use rusty::registry::{join_path, PluginRegistry};

fn plugin(id: &str, pre: u32) -> LoadedPlugin<u32> {
    LoadedPlugin {
        manifest: PluginManifest {
            plugin: PluginMeta {
                id: id.into(),
                name: "N".into(),
                version: "1".into(),
                author: "a".into(),
                description: "d".into(),
                runtime_compat: "0.1".into(),
            },
            actions: vec![],
            capabilities: vec![],
        },
        pre,
    }
}

#[test]
fn registry_get_nonexistent_returns_none() {
    let registry: PluginRegistry<u32> = PluginRegistry::new("/tmp/home");
    assert!(registry.get("does-not-exist").is_none());
    assert!(registry.list().is_empty());
}

#[test]
fn registry_install_and_get() {
    let mut registry = PluginRegistry::new("/tmp/home");
    registry.insert(plugin("hello-world", 1));
    assert!(registry.get("hello-world").is_some());
    assert_eq!(registry.list().len(), 1);
    assert_eq!(registry.get("hello-world").unwrap().plugin_id(), "hello-world");
}

#[test]
fn reinstalling_replaces_the_plugin() {
    let mut registry = PluginRegistry::new("/tmp/home");
    registry.insert(plugin("a", 1));
    registry.insert(plugin("b", 2));
    registry.insert(plugin("a", 3));
    assert_eq!(registry.list().len(), 2);
    assert_eq!(registry.get("a").unwrap().pre, 3);
    assert_eq!(registry.get("b").unwrap().pre, 2);
    let ids: Vec<&str> = registry.list().iter().map(|p| p.plugin_id()).collect();
    assert_eq!(ids, vec!["a", "b"]);
}

#[test]
fn plugins_live_under_the_home_directory() {
    let registry: PluginRegistry<u32> = PluginRegistry::new("/tmp/home");
    assert_eq!(registry.plugins_dir(), "/tmp/home/plugins");
    assert_eq!(join_path("/tmp/home/", "plugins"), "/tmp/home/plugins");
    assert_eq!(join_path("", "plugins"), "plugins");
    assert_eq!(manifest_file_name(), "rusty-plugin.toml");
    assert_eq!(LoadedPlugin::<u32>::wasm_file_name(&plugin("hello-world", 0).manifest), "hello-world.wasm");
}

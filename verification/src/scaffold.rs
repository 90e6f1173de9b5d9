//! The files of a new plugin project.

use vstd::prelude::*;
use vstd::string::{StrSliceExecFns, StringExecFns};

verus! {

/// `name` with every `-` replaced by `_`.
pub open spec fn underscored(name: Seq<char>) -> Seq<char> {
    name.map_values(|c: char| if c == '-' { '_' } else { c })
}

/// `name` with every `-` replaced by `_`, character by character.
fn replace_dashes(name: &str) -> (r: String)
    ensures
        r@ == underscored(name@),
{
    let n = name.unicode_len();
    let mut r = String::new();
    let mut i: usize = 0;
    while i < n
        invariant
            i <= n,
            n == name@.len(),
            r@ == underscored(name@.subrange(0, i as int)),
        decreases n - i,
    {
        let c = name.get_char(i);
        let ghost before = r@;
        if c == '-' {
            r.append("_");
            proof {
                reveal_strlit("_");
            }
        } else {
            r.append(name.substring_char(i, i + 1));
        }
        proof {
            assert(name@.subrange(0, i + 1) =~= name@.subrange(0, i as int).push(c));
            assert(r@ =~= before.push(if c == '-' { '_' } else { c }));
            assert(underscored(name@.subrange(0, i + 1)) =~= underscored(name@.subrange(0, i as int)).push(
                if c == '-' { '_' } else { c },
            ));
        }
        i = i + 1;
    }
    assert(name@.subrange(0, n as int) =~= name@);
    r
}

/// The text of a new plugin's `Cargo.toml` before its crate name.
pub open spec fn cargo_head() -> Seq<char> {
    "[package]\nname = \""@
}

/// The text of a new plugin's `Cargo.toml` after its crate name.
pub open spec fn cargo_tail() -> Seq<char> {
    "\"\nversion = \"0.1.0\"\nedition = \"2024\"\n\n[lib]\ncrate-type = [\"cdylib\"]\n\n[dependencies]\nrusty-plugin-sdk = { git = \"https://github.com/tylergibbs1/rusty.git\", path = \"crates/rusty-plugin-sdk\" }\nwit-bindgen = \"0.54\"\nserde = { version = \"1\", features = [\"derive\"] }\nserde_json = \"1\"\n"@
}

/// The text of a new plugin's manifest around its name, which it gives as id and as name.
pub open spec fn manifest_parts() -> (Seq<char>, Seq<char>, Seq<char>) {
    (
        "[plugin]\nid = \""@,
        "\"\nname = \""@,
        "\"\nversion = \"0.1.0\"\nauthor = \"\"\ndescription = \"\"\n\ncapabilities = []\n\n[[actions]]\nid = \"hello\"\ntitle = \"Hello\"\ndescription = \"A starter action\"\nkind = \"read-only\"\napproval = \"none-required\"\ntags = []\ncapabilities = []\n\n[actions.input-schema]\ntype = \"object\"\nrequired = [\"name\"]\n\n[actions.input-schema.properties.name]\ntype = \"string\"\n\n[actions.output-schema]\ntype = \"object\"\nrequired = [\"message\"]\n\n[actions.output-schema.properties.message]\ntype = \"string\"\n"@,
    )
}

/// The source of a new plugin's `src/lib.rs` around its name, which it gives
/// as id and as name of the plugin.
pub open spec fn source_parts() -> (Seq<char>, Seq<char>, Seq<char>) {
    (
        "use rusty_plugin_sdk::{from_json, to_json};\n\nwit_bindgen::generate!({\n    inline: rusty_plugin_sdk::PLUGIN_WIT,\n});\n\nuse exports::rusty::plugin::guest::Guest;\nuse rusty::plugin::host_api;\nuse rusty::plugin::types::*;\n\nstruct Plugin;\n\nimpl Guest for Plugin {\n    fn get_info() -> PluginInfo {\n        PluginInfo {\n            id: \""@,
        "\".into(),\n            name: \""@,
        "\".into(),\n            version: \"0.1.0\".into(),\n            author: \"\".into(),\n            description: \"\".into(),\n        }\n    }\n\n    fn list_actions() -> Vec<ActionDef> {\n        vec![ActionDef {\n            id: \"hello\".into(),\n            title: \"Hello\".into(),\n            description: \"A starter action\".into(),\n            input_schema: r#\"{\"type\":\"object\",\"required\":[\"name\"],\"properties\":{\"name\":{\"type\":\"string\"}}}\"#.into(),\n            output_schema: r#\"{\"type\":\"object\",\"required\":[\"message\"],\"properties\":{\"message\":{\"type\":\"string\"}}}\"#.into(),\n            kind: ActionKind::ReadOnly,\n            approval: ApprovalClass::NoneRequired,\n            tags: vec![],\n        }]\n    }\n\n    fn invoke(action_id: String, input: String) -> ActionResult {\n        host_api::log(LogLevel::Info, &format!(\"invoking {action_id}\"));\n\n        match action_id.as_str() {\n            \"hello\" => {\n                let parsed: serde_json::Value = match from_json(&input) {\n                    Ok(v) => v,\n                    Err(e) => return ActionResult::Err(ActionError {\n                        code: \"parse_error\".into(),\n                        message: e,\n                        details: None,\n                    }),\n                };\n                let name = parsed[\"name\"].as_str().unwrap_or(\"world\");\n                ActionResult::Ok(to_json(&serde_json::json!({ \"message\": format!(\"Hello, {name}!\") })))\n            }\n            _ => ActionResult::Err(ActionError {\n                code: \"unknown_action\".into(),\n                message: format!(\"unknown action: {action_id}\"),\n                details: None,\n            }),\n        }\n    }\n}\n\nexport!(Plugin);\n"@,
    )
}

/// The three files of a new plugin project.
pub struct PluginScaffold {
    /// `Cargo.toml`.
    pub cargo_toml: String,
    /// `rusty-plugin.toml`.
    pub manifest: String,
    /// `src/lib.rs`.
    pub lib_rs: String,
}

/// `parts` with `name` between the first and second part and again between the
/// second and third.
pub open spec fn fill(parts: (Seq<char>, Seq<char>, Seq<char>), name: Seq<char>) -> Seq<char> {
    parts.0 + name + parts.1 + name + parts.2
}

fn fill_in(first: &str, second: &str, third: &str, name: &str) -> (s: String)
    ensures
        s@ == fill((first@, second@, third@), name@),
{
    let mut s = String::from_str(first);
    s.append(name);
    s.append(second);
    s.append(name);
    s.append(third);
    s
}

impl PluginScaffold {
    /// The files of a new plugin called `name`: a `Cargo.toml` for the crate
    /// named like the plugin with `-` turned into `_`, a manifest with a starter
    /// action, and the starter source.
    pub fn for_plugin(name: &str) -> (s: Self)
        ensures
            s.cargo_toml@ == cargo_head() + underscored(name@) + cargo_tail(),
            s.manifest@ == fill(manifest_parts(), name@),
            s.lib_rs@ == fill(source_parts(), name@),
    {
        let crate_name = replace_dashes(name);
        let mut cargo_toml = String::from_str("[package]\nname = \"");
        cargo_toml.append(crate_name.as_str());
        cargo_toml.append("\"\nversion = \"0.1.0\"\nedition = \"2024\"\n\n[lib]\ncrate-type = [\"cdylib\"]\n\n[dependencies]\nrusty-plugin-sdk = { git = \"https://github.com/tylergibbs1/rusty.git\", path = \"crates/rusty-plugin-sdk\" }\nwit-bindgen = \"0.54\"\nserde = { version = \"1\", features = [\"derive\"] }\nserde_json = \"1\"\n");
        let manifest = fill_in(
            "[plugin]\nid = \"",
            "\"\nname = \"",
            "\"\nversion = \"0.1.0\"\nauthor = \"\"\ndescription = \"\"\n\ncapabilities = []\n\n[[actions]]\nid = \"hello\"\ntitle = \"Hello\"\ndescription = \"A starter action\"\nkind = \"read-only\"\napproval = \"none-required\"\ntags = []\ncapabilities = []\n\n[actions.input-schema]\ntype = \"object\"\nrequired = [\"name\"]\n\n[actions.input-schema.properties.name]\ntype = \"string\"\n\n[actions.output-schema]\ntype = \"object\"\nrequired = [\"message\"]\n\n[actions.output-schema.properties.message]\ntype = \"string\"\n",
            name,
        );
        let lib_rs = fill_in(
            "use rusty_plugin_sdk::{from_json, to_json};\n\nwit_bindgen::generate!({\n    inline: rusty_plugin_sdk::PLUGIN_WIT,\n});\n\nuse exports::rusty::plugin::guest::Guest;\nuse rusty::plugin::host_api;\nuse rusty::plugin::types::*;\n\nstruct Plugin;\n\nimpl Guest for Plugin {\n    fn get_info() -> PluginInfo {\n        PluginInfo {\n            id: \"",
            "\".into(),\n            name: \"",
            "\".into(),\n            version: \"0.1.0\".into(),\n            author: \"\".into(),\n            description: \"\".into(),\n        }\n    }\n\n    fn list_actions() -> Vec<ActionDef> {\n        vec![ActionDef {\n            id: \"hello\".into(),\n            title: \"Hello\".into(),\n            description: \"A starter action\".into(),\n            input_schema: r#\"{\"type\":\"object\",\"required\":[\"name\"],\"properties\":{\"name\":{\"type\":\"string\"}}}\"#.into(),\n            output_schema: r#\"{\"type\":\"object\",\"required\":[\"message\"],\"properties\":{\"message\":{\"type\":\"string\"}}}\"#.into(),\n            kind: ActionKind::ReadOnly,\n            approval: ApprovalClass::NoneRequired,\n            tags: vec![],\n        }]\n    }\n\n    fn invoke(action_id: String, input: String) -> ActionResult {\n        host_api::log(LogLevel::Info, &format!(\"invoking {action_id}\"));\n\n        match action_id.as_str() {\n            \"hello\" => {\n                let parsed: serde_json::Value = match from_json(&input) {\n                    Ok(v) => v,\n                    Err(e) => return ActionResult::Err(ActionError {\n                        code: \"parse_error\".into(),\n                        message: e,\n                        details: None,\n                    }),\n                };\n                let name = parsed[\"name\"].as_str().unwrap_or(\"world\");\n                ActionResult::Ok(to_json(&serde_json::json!({ \"message\": format!(\"Hello, {name}!\") })))\n            }\n            _ => ActionResult::Err(ActionError {\n                code: \"unknown_action\".into(),\n                message: format!(\"unknown action: {action_id}\"),\n                details: None,\n            }),\n        }\n    }\n}\n\nexport!(Plugin);\n",
            name,
        );
        PluginScaffold { cargo_toml, manifest, lib_rs }
    }
}

/// Where `cargo build` puts a plugin and under which profile.
pub struct BuildProfile {
    /// The value of `cargo build --profile`.
    pub cargo_profile: &'static str,
    /// The directory, relative to the plugin project, that receives the `.wasm` file.
    pub output_dir: &'static str,
}

impl BuildProfile {
    /// The profile of a release build, or of a debug build when `debug` is set.
    pub fn for_build(debug: bool) -> (p: Self)
        ensures
            debug ==> p.cargo_profile@ == "dev"@ && p.output_dir@ == "target/wasm32-wasip2/debug"@,
            !debug ==> p.cargo_profile@ == "release"@ && p.output_dir@ == "target/wasm32-wasip2/release"@,
    {
        if debug {
            BuildProfile { cargo_profile: "dev", output_dir: "target/wasm32-wasip2/debug" }
        } else {
            BuildProfile { cargo_profile: "release", output_dir: "target/wasm32-wasip2/release" }
        }
    }
}

} // verus!

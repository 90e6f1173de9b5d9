//! A policy-aware host for sandboxed plugin actions: the data model of plugin
//! manifests, actions, capabilities, policies, invocations and execution traces,
//! together with the rule engine and the invocation lifecycle that decide what
//! runs. Waiting on the WASM runtime, the file system and the terminal is left
//! to the program around this library.

pub mod text;
pub mod capability;
pub mod action;
pub mod json;

pub mod error;
pub mod schema;
pub mod policy;
pub mod policy_engine;
pub mod manifest;
pub mod clock;
pub mod trace;
pub mod invocation;
pub mod invoke;
pub mod host;
pub mod runtime;
pub mod plugin;
pub mod registry;
pub mod render;
pub mod scaffold;

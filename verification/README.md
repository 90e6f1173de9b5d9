# rusty

A policy-aware host for sandboxed WASM plugin actions.

- `src/` is the verified library: manifests and their rules, the first-match-wins
  policy engine, JSON-schema admission of inputs, the invocation lifecycle and its
  execution trace, the host calls' effect on the trace, the plugin registry, and the
  text of everything the command line prints. Its contracts are checked by Verus.
- `app/` is the `rusty` command line around it: reading files and TOML, running the
  plugin in wasmtime between `begin_invocation` and `conclude`, and printing.
- `tests/` runs the library on concrete values.

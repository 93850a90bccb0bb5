# eln_plugin_sdk

The interface contract between the elendirna core and its plugin modules,
written in Verus.

- `src/` — the verified library: permission bits and their laws
  (`permissions`), the tool-call context (`tool`), caller identity
  (`identity`), API keys with masked text (`api_key`), tool errors and their
  JSON-RPC code and data (`error`, built through `serde_json` in `json`), and
  tool descriptors (`server`).
- `app/` — what stays around it: the async tool-handler trait, the plugin
  server trait, and the serde, thiserror and bitflags forms of the library's
  types, with conversions both ways.
- `tests/` — tests of the library on concrete values.

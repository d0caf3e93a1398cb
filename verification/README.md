# polyhook_core

Normalization of AI coding-agent hook payloads, verified with Verus.

A hook binary is invoked by an agent with a JSON document on stdin and
answers with a JSON document on stdout; every agent uses its own shapes and
names.  This library detects the calling agent, maps its event and tool names
to canonical ones, extracts a normalized `HookEvent`, and encodes a
`HookResponse` in the form the caller expects.

## Layout

- `src/` — the verified library.
  - `json.rs` — the JSON value model (`Json`, `JsonModel`) and its lookups.
  - `decode.rs` — decoding bytes with `serde_json` (trusted boundary).
  - `text.rs` — string equality and the `str::to_lowercase` boundary.
  - `types.rs` — `CallerKind`, `HookEventEvent`, `HookEvent`, `HookResponse`.
  - `tools.rs`, `events.rs` — the per-caller name tables.
  - `detect.rs` — caller detection from the environment and the document.
  - `parse.rs` — field extraction and `parse_event`.
  - `response.rs` — per-caller response encoding.
  - `io.rs` — `read_from` over a `std::io::Read`.
  - `frame.rs` — the length-prefixed byte protocol of the WASM exports.
- `app/` — process-facing code: environment and stdio, the per-thread memory
  of the last event read, conversions to and from `serde_json::Value`, and the
  raw WASM exports.
- `tests/` — behavioural tests of the library.

# omega_tui

The state and the text of a terminal UI for an agent runtime, with the
registry that routes the agent's tool calls, verified with Verus.

- `src/` is the library. Every function there is proved against its
  contract: the reducer that applies runtime messages and effects to the
  UI state, the transcript and the card of each message, restoring a
  saved session, focus and selection in the sidebar, the delivery, skill, knowledge
  and diagnostics panels, overlays (search, details, confirmations,
  picker, prompt, document navigator) and what keys do in them, the tool
  dispatcher, and text handling (ANSI stripping, line splitting, report
  sections, tables).
- `src/outside.rs`, and a few small wrappers elsewhere, state what the
  library assumes of `serde_json`, `anyhow` and std.
- `tests/` runs the library on concrete values.
- `app/` holds what Verus does not check: reading and writing the
  configuration file, the wire forms that serde serializes, and floating
  point byte sizes.

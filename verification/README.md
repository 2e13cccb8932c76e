# astra

A local-first astrology workspace: canonical, revisioned library resources (chart records,
chart definitions, point and aspect sets, views, workspaces), the workspace session that edits
them, and the read model that a presentation renders. The library under `src/` is written in
Verus; every function states its behaviour in `requires`/`ensures` and is proved.

## Layout

- `src/ids.rs`, `units.rs`, `time.rs`, `decimal.rs`: identities, revisions, units held by their
  binary64 encodings, the civil calendar and clock, decimal numerals.
- `src/chart.rs`, `resource.rs`, `view.rs`, `workspace.rs`, `query.rs`, `command.rs`,
  `validation.rs`, `slots.rs`, `copy.rs`: the canonical domain and its validation.
- `src/catalog.rs`, `binding.rs`: the hydrated library (heads and pinned history) and how a
  workspace binding resolves against it.
- `src/workspace_commands.rs`: the workspace command interpreter.
- `src/session.rs`, `intents.rs`, `lifecycle.rs`, `configuration.rs`, `scene.rs`, `projection.rs`,
  `read_model.rs`: the application session as a state machine from state and event to next state
  and action, and its projection.
- `src/entry.rs`, `edit_buffer.rs`, `shortcuts.rs`, `automation.rs`: the grammar of form entries,
  edit buffers, command metadata and automation settings of the workbench.
- `src/bootstrap.rs`, `demo.rs`: the first-run library and its fixed identities, and the
  demonstration resources, with their quantities written as binary64 encodings.
- `src/timestamp_order.rs`: the order of timestamps.
- `src/laws.rs`: properties that relate several operations, stated and proved over the contracts.
- `app/`: the host around the library: the asynchronous repository, scene provision and update
  notification, seeding through a repository, and the floating-point views of the unit types.
- `tests/`: scenario tests run against the compiled library.

# appkit

Shared GPU application bootstrap, verified with Verus.

- `src/` — the verified library: the `AppState` trait with its default
  hooks and window metadata, the routing of window events to those hooks
  (`dispatch`), the steps of a run (`init_state`, `window_settings`,
  `run_outcome`) and the bootstrap error `AppkitError`.
- `app/` — the shell around it: config loading from disk, opening the
  window and running the event loop, and the tokio runtime for the MCP
  subcommand.
- `tests/` — tests of the library.

# dsh_desktop

The Rust core of the DeepSeek Harness desktop shell (Tauri 2), with its
decisions verified by Verus.

- `src/` — the verified library: the injected bridge script (`bridge`), the
  Host configuration, events, states and supervisor state machine (`host`),
  the answers behind the renderer commands and the full-screen broadcast
  (`commands`), the data root and profile locations (`paths`), the desktop
  profile files (`profile`), the `dsh-app` protocol routing (`protocol`), and
  the std and serde_json calls they rest on (`text`).
- `app/` — the Tauri application around it: windows, the Host child process,
  environment variables, the file system, and serde copies of the library's
  types for the wire.
- `tests/` — tests of the library.

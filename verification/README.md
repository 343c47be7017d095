# companion-core

The companion-core HTTP sidecar of the Digital Girl project and its desktop
control center, with their decisions proved in Verus.

- `src/` is the verified library: configuration loading and precedence
  (`config`, `server`, `launcher_config`), the `/chat` reply policy and the
  provider exchange (`server`), chat threads, session ids and the sidecar
  protocol of the control center (`chat`), service panels (`panel`),
  environment diagnostics (`diagnostics`) and the control center's state
  transitions (`control`). `text`, `json`, `paths` and `clock` hold the
  string model and the few calls into std, `serde_json` and `chrono` that the
  library trusts.
- `app/` is the program around it: the axum routes and provider call
  (`--server`), and the egui control center with its processes, sockets,
  files and threads.
- `tests/` runs the library on concrete values.

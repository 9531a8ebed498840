# rift_app

The decision logic, data types and state machines of the Rift terminal
application, written in Verus and proved against their contracts.

- `src/` is the verified library. Each module states its behaviour in
  `requires`/`ensures` clauses over spec functions and views; the laws that
  relate several operations are public proof functions named `lemma_*`.
  Calls into other crates (uuid, regex, chrono, `std::path`) go through small
  trusted wrappers whose doc comments say what their contracts claim.
- `tests/` runs the library on concrete values.
- `app/` is the program around the library: process start-up, the SQLite
  writer thread, the daemon's channels, filesystem work, and the conversions
  that need serde, floats or types of other crates.

Main modules:

| module | what it decides |
| --- | --- |
| `pane_rows` | how a pane tree is stored as rows and read back |
| `persistence` | which queued writes can be skipped, the writer's state machine, where the database lives |
| `remote_server`, `server_dispatch`, `file_ops` | routing in the remote-server daemon: connections, failover, aborts, pending file operations |
| `launch`, `quit_modal` | start-up decisions and closing windows |
| `launch_config` | launch configurations saved from the window layout |
| `telemetry_names`, `telemetry_collector` | telemetry event names, descriptions, enablement, the active-usage signal |
| `managed_paths` | the watched application directories and the changes reported under them |
| `agent_command_predicate` | allow/deny patterns for agent commands |

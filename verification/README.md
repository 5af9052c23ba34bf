# mcpproxy

A proxy that forwards the MCP endpoints of JetBrains Rider (SSE and
Streamable HTTP) to WSL, rewriting upstream URLs into the address under
which WSL reaches the proxy.

- `src/` is the library, verified with Verus: configuration checks, URL
  building, transport routing, header filtering, URL rewriting of headers
  and SSE chunks, the recent-log buffer, status and connection-test
  reports, and the start/save/tray decisions. `src/laws.rs` holds the
  properties proved across functions; `src/outside.rs` holds every item
  whose contract is trusted rather than proved (calls into `url`, `bytes`,
  `reqwest` and the standard library).
- `app/` is the program: the command line, the HTTP server and client
  (`axum`, `reqwest`, `tokio`), the configuration file (`toml`, `serde`),
  log files and timestamps (`chrono`). `app/gui.rs` holds the Tauri tray
  application. It needs Tauri, its build step and its configuration file,
  none of which this package carries (Cargo.toml names no `tauri`
  dependency and no `tray` feature), so it is not compiled here; without
  it, a start without `--cli` says so and runs the command-line mode.
- `tests/` runs the library on concrete inputs.

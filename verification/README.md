# apx

The verified core of the apx toolkit for Databricks Apps, written in Verus.

- `src/` is the library. Every function in it carries a `requires`/`ensures`
  contract that Verus proves.
  - `sdk`: reading `~/.databrickscfg`, the User-Agent header, CLI tokens and
    their validity window, and the apps and serving-endpoint REST models,
    including the app log stream's frame reader and tail buffer.
  - `db`: FTS5 query sanitizing and enhancement, the FTS5 table schema, and
    the SQL text of the logs database.
  - `framework`: the decisions of the HTTP-to-Python bridge (ASGI events and
    scopes, parameter extraction, problem-detail errors, route discovery and
    binding, the dependency plan, and the lifespan and drainer state
    machines). The Python runtime that applies them (pyo3, asyncio, the
    axum/hyper server) is not part of this crate.
- `app/` is ordinary Rust around the library. It does the I/O: the REST and
  WebSocket client, the Databricks CLI, the SQLite stores, the bench-trace
  file, and JSON (de)serialization of the library's types.
- `tests/` exercises the library on concrete values.

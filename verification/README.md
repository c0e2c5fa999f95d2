# pando

A shared memory backend for AI assistants: projects, tasks, preferences and
notes behind an MCP tool interface, guarded by a self-hosted OAuth 2.1
authorization server.

- `src/` is the verified library (Verus). It holds every rule of the
  server: the tool arguments each tool accepts and the rows it writes
  (`mcp/`), the OAuth endpoints' decisions, token hashing, PKCE and the
  bearer-token check (`oauth/`), key validation and `LIKE` escaping
  (`validation.rs`), and the calls into hashing, encoding, date and HTTP
  crates behind stated contracts (`crypto.rs`, `codec.rs`, `dates.rs`,
  `web.rs`).
- `app/` is the server around it: configuration, the Axum routes, the MCP
  tool handlers and every Postgres query. It hands the library plain
  values and acts on the steps it returns.
- `tests/` runs the library on concrete inputs.

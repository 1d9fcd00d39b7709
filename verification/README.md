# animus-transport-http

HTTP REST transport for the Animus daemon: `/api/v1/*` routes that forward to
the daemon's control socket as JSON-RPC calls and answer with an
`{"ok": ..., "data"|"error": ...}` envelope.

## Layout

- `src/` — the verified library (Verus):
  - `server.rs` — the route table (method, path, control verb per route), its
    laws (no duplicate routes, no agent routes, every route but clearing the
    logs calls a verb) and the CORS origin rule.
  - `handlers/` — the envelope and, per route group, the request each route
    sends; `Endpoint` ties a route's inputs to its call and to the answers
    given without a call (missing `kind`, clearing the logs).
  - `control_client.rs` — request ids, JSON-RPC frames, and how replies read
    back settle a call; the 503 answered when the socket is unreachable.
  - `json.rs` — the JSON model the requests and replies are written in.
  - `config.rs`, `backend.rs` — settings from the daemon's configuration, the
    transport schema and health report.
  - `text.rs` — string routines (prefix, equality, blank lines, decimals).
- `app/` — the Axum server, the Unix-socket connection, JSON conversion and
  the transport backend's lifecycle, around the library.
- `tests/` — tests of the library.

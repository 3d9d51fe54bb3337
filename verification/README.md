# mcp-server-playground

An MCP (Model Context Protocol) server with two tools, `calendar` and `contacts`,
answering from local JSON files. It speaks JSON-RPC 2.0 over Streamable HTTP
(`POST|GET|DELETE /mcp` on `127.0.0.1:3000`); with `--sse` it serves the SSE
transport instead (`GET /sse`, `POST /message?sessionId=...`).

The decisions of the server are a library verified with Verus; the HTTP server
around it is ordinary Rust.

## Layout

- `src/` — the verified library.
  - `contacts/`, `calendar/` — the data types, the queries (filters, search,
    lookup by id, stable ordering by start time) and the tools that decode their
    arguments, each with an exact contract; the tools' input schemas.
  - `mcp/` — JSON-RPC types and error codes, request routing, the session
    table and its lifecycle (`Uninitialized` → `Initializing` → `Ready`), and the
    decisions of both transports: header checks, per-message planning of a
    `POST /mcp` body, stream opening and closing, session deletion.
  - `json.rs`, `schema.rs`, `text.rs`, `seqs.rs` — JSON values and their
    mathematical model, schema builders, character-level text operations.
  - `laws.rs` — properties that relate several operations (for instance: the
    handshake makes a session ready; a session's stream is handed out once; a
    deleted session is gone; the upcoming events are sorted and deterministic).
- `tests/` — tests of the library on concrete values.
- `app/` — the executable: data loading, serde conversions, the axum handlers,
  the async tool trait and registry.

## Checking

The library is verified with Verus; `tests/` run with `cargo test`.

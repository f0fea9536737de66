# multithreaded_kv_store

A key-value store engine, verified with Verus, and a small demo server.

- `src/query.rs` — the query language (`Write <key> = <value>`, `Read <key>`,
  `Delete <key>`), specified by `parse_query`.
- `src/storage.rs` — the in-memory storage (`MemStorage`).
- `src/proto.rs`, `src/wire.rs` — the operation and log-record messages and
  their Protocol Buffers encoding; the byte-level encoders are those of `prost`.
- `src/engine.rs` — `StoreEngine`: reads are answered from memory; writes and
  deletes produce a log record (`execute_operation`) and are applied once the
  record is durable (`complete_operation`).
- `src/http.rs`, `src/text.rs` — routing and response text of the demo server.
- `src/laws.rs` — properties relating several operations.
- `app/` — the server: TCP, files, the log file and its syncing.

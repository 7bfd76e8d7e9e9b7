# idempotency_rs

Idempotency for Rust web services: a client sends a key with each request that
changes something, and a request that is sent again under its key gets the
answer of the first, without being handled twice.

- `src/` is the library, verified with Verus. It decides: which keys are sound,
  who gets the lock of a request, when a handler runs, what is stored and what is
  answered. `src/laws.rs` states and proves what holds of it as a whole, such as
  that a handler runs once.
- `app/` is what surrounds it: the SQLite store, the request loop, the Axum and
  Tonic integrations and the HTTP client.
- `tests/` runs the library, also against a SQLite database in memory.

Keys are UUIDs of version 4, scoped to a user. A record is kept for 24 hours and
a lock for 30 seconds, unless configured otherwise.

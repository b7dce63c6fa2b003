# pg_documentdb_gw

The core of a gateway that speaks a document database protocol to its clients
and PostgreSQL to its backend, verified with Verus.

- `src/` decides. Listening, setting up a connection, serving a client and
  opening or settling a transaction are state machines: `action` says what is to
  be done next, `step` takes in what came of it. Each is stated as a `next`
  function over its states and events, and the laws that follow from it stand
  beside it as proof functions. The store of open transactions, the accounting of
  request time, and the texts of errors, of the listen address and of the latency
  line are computed here in full.
- `app/` acts. It owns the sockets, the TLS sessions, the tasks and the timers,
  performs what `src/` asks for and reports back. Wire protocol,
  authentication, request processing, telemetry and the backend come in through
  the traits of `app/services.rs`.
- `tests/` runs the library.

What is taken on trust is marked `external_body` and documented where it stands:
the clock (`src/clock.rs`), UUIDs (`src/identity.rs`) and the concurrent maps of
the transaction store (`src/context/session_maps.rs`).

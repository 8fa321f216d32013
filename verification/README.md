# verisimiser

Augments an existing database with the eight VeriSimDB octad dimensions
(data, metadata, provenance, lineage, constraints, access control, temporal,
simulation) by keeping them in a separate sidecar store.

Layout:

- `src/` — the library, verified with Verus: manifest model and validation,
  schema parsing, sidecar DDL and query-interceptor generation, the
  hash-chained provenance log with forks, temporal versioning, retention
  (garbage collection) plans, the lock-acquisition state machine, and the
  doctor's report assembly. Calls into `sha2`, `chrono`, `sqlparser` and the std clock go
  through small trusted wrappers whose contracts are stated in their doc
  comments.
- `app/` — the `verisimiser` command line: argument parsing, file and
  SQLite I/O, the serde encodings of the manifest, reports and the JSON
  sidecar, and the drift score (floating point).
- `tests/` — the test suite, run against the compiled library.

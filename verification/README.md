# sparrow_db

The decision-making core of SparrowDB, a graph-vector database, written in Verus:
Verus verifies every function in `src/`, against a contract that states what it does
wherever the result does not rest on the machine, the clock or chance.

- `src/` — the verified library: the HQL syntax tree, the start-node parser and the
  lowering of queries into traversal steps (`hql`, `parser`, `lower`, `runtime`);
  the HelixDB-compatible query translation (`compat`); the exchange of each operation
  of a query with the storage (`execution`); storage metadata encoding
  (`metadata`); schema migrations, their plan and the run driver (`migration`); access
  tokens (`auth`); runtime settings (`settings`); health and diagnostics reports
  (`diagnostics`, `maintenance`); the storage engine's step decisions (`engine`,
  `vector_ops`, `memory`); worker placement (`gateway`); the command-line tool's
  choices (`cli`, `stress`); and the embedded studio (`studio`).
- `tests/` — tests of the library on concrete values.
- `app/` — the parts that talk to the outside world: `clap` argument types, JSON
  conversion, the host loops that run a query's operations against a storage
  transaction, the LMDB token and metadata stores (`heed3`), and process, container
  and environment readings. They hand plain values to the library and act on its answers.

Outside crates are reached through a few trusted wrappers, each documented where it is
declared: `uuid`, `sha2`, `rand`, `mime_guess`, `core_affinity` and std's hashing, clock
and UTF-8 decoding.

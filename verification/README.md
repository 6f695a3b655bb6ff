# redisql

The core of RediSQL, the Redis module that gives Redis SQL databases
(SQLite), written in Verus: the library in `src/` is verified by Verus
against the contracts of its functions.

## Layout

- `src/parser/`: the commands of the second generation (`CREATE_DB`, `EXEC`,
  `QUERY`, `STATEMENT`), read from their arguments, with their error codes;
  the laws that a parsed command is complete and that what an `EXEC`
  replicates parses back to the same command.
- `src/commands_v1.rs`: the commands of the first generation: what each one
  asks and the work it hands to the worker of its database.
- `src/redis.rs`: the messages of the worker of a database, the step that
  the worker takes for each message, the book of stored statements (with
  its laws), the answers to clients in Redis's reply types, and the keys
  that hold databases.
- `src/sqlite.rs`: the parameter rules of multi statements, cursors, SQLite
  errors and the backup loop's decisions.
- `src/virtual_tables.rs`: the virtual table that shows Redis hashes as SQL
  rows: its declaration, its scan cursor and its row identifiers.
- `src/sync_engine.rs`: the lines of a database dump, read in chunks.
- `src/statistics.rs`, `src/telemetrics.rs`, `src/names.rs`,
  `src/redisql_error.rs`, `src/redis_type.rs`, `src/text.rs`: counters, the
  telemetry bucket, generated names, errors, argument lists and replies of
  Redis calls, decimal text.
- `app/`: what stays outside the proofs: the JSON report of the
  statistics (serde), the telemetry loop (hyper), the logger, the loop of a
  worker thread and the dispatch of the first-generation commands. These
  are written against two traits, `Database` (SQLite) and `Keyspace`
  (Redis's keyspace, clients, replies and replication), which this
  repository does not implement: the bindings to SQLite and to Redis's
  module API, and the module's entry point, are not part of it.
- `tests/`: the tests of the library.

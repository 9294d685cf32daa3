# conport

A context portal for AI assistants: workspaces keep a product and an active
context, decisions, progress entries, system patterns, custom data and the
links between them, and serve them over HTTP or a JSON-RPC stdio transport.

The logic is a Verus library whose functions carry `requires`/`ensures`
contracts proved by Verus:

- `src/markdown`: Markdown export and import of contexts, decisions and
  progress entries, with proofs that what is exported is read back
  (`roundtrip.rs`, `decision_fields.rs`, `context_stamps.rs`, and
  `progress_list.rs` for a whole list of progress entries).
- `src/args`, `src/types`: records, tool arguments and their validation;
  JSON content updates with full and patch (deep merge) modes.
- `src/query`, `src/persistence`: full-text query preparation, tag filters,
  the SQL statements whose text or bound values depend on their arguments,
  and the per-workspace connection cache. The cache hands out shared,
  read-only connection handles: removing a workspace or clearing the cache
  drops its entries but does not mark handles already handed out as closed.
- `src/handlers`, `src/protocol`, `src/server`, `src/detector`: the decisions
  of the request handlers, the tools of the batch and search endpoints with
  their input schemas, the JSON-RPC types and routing, and workspace
  detection as a state machine.
- `src/config`, `src/error`: configuration values and error kinds.

Calls into outside crates (chrono, uuid, serde_json, serde_yaml, regex,
tracing, dirs) go through small trusted wrappers. Their contracts state what
the documentation or source promises, or name a result that depends on the
arguments alone (a serialised text, a parsed value, a joined path). Of a
result that depends on the clock, chance or the environment only its form is
stated: a UTC timestamp ending in `+00:00`, a hyphenated version 4 UUID.

`app/` holds the program around the library: argument parsing, the SQLite
database, the HTTP routes, the stdio loop, logging setup and workspace
detection on disk. `tests/` exercises the library.

# devo_server

The verified core of the devo session server, written in Verus.

- `src/` holds the server's bookkeeping and rules with their contracts:
  the session turn queue (`queue`, `queue_store`), event delivery and
  connection routing (`delivery`, `runtime`, `incoming`), approval grants
  (`approval`, `grants`), the turn working set (`session_state`), context
  compaction (`compaction`, `context_budget`), message edits, goals,
  session titles, turn start and failure handling, MCP listings, provider
  routing and workspace-change views. Laws that span several operations
  are public proof functions next to the operations they speak of.
- `tests/` runs the library on concrete values.
- `app/` is the unverified shell: the SQLite session index (`db`) and the
  JSON-RPC wire shapes (`wire`).

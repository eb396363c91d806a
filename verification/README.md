# hi_core

The core of the `hi` agent: configuration (`hi.toml` layout, providers,
channels, paths), the approval policy for shell and file tools (command
analysis, de-obfuscation, grants), the context budget and compression steps
of the agent loop, long-term memory texts (keywords, injection blocks, search
results, extraction requests), line diffs, channel message splitting and the
localized message catalog.

- `src/` is the library, written in Verus: every function carries a contract
  and is verified. Public proof functions named `law_*` state properties that
  span several functions (round trips, what a grant allows, what a rollback
  restores, budget bounds).
- `tests/` runs the library on concrete values.
- `app/` is the part that does I/O: reading and writing the `hi.toml` file
  (the library reads its text as TOML and lays it out; app/ keeps the serde
  copies of the settings), the SQLite session store (`rusqlite`), the async agent loop
  (`tokio`, `async-trait`) that calls the model and the tools and runs the
  library's steps in between, and the floating-point clarity of memory knots.

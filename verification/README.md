# opencode_engine

The rules of an engine that runs turns of a coding assistant by the `opencode` executable, verified
with Verus.

- `src/` decides, on plain values, and proves what it decides.
  - `json`: documents, and how they are read from text, bytes and `serde_json` values.
  - `event`: what an engine tells the application.
  - `event_parser`: from the lines that `opencode` prints to engine events.
  - `opencode_event_mapper`: from OpenCode's JSON events, in any of their spellings, to engine
    events; actions keep their identifiers.
  - `models`: the models in a listing.
  - `engine`, `lifecycle`, `transport`, `error`: health, threads, the course of a turn, and what
    process to start.
  - `opencode`: what changes where the Codex engine does the work.
  - `model_preferences`: a user's marks on models, as a table holds them.
  - `text`, `ident`: text primitives and identifiers.
  - `laws`: what holds across functions and over several calls.
- `tests/` runs the library on concrete values.
- `app/` runs the process, passes the events on and keeps the table.

# lazysql

A terminal client for PostgreSQL and MySQL: saved connections, a schema and
table browser, a table inspector, a paginated records viewer, an SQL editor
with syntax highlighting and query history, and switchable color themes.

The crate is written in Verus. Its library (`src/`) holds the program's logic
with contracts proved by the verifier; the terminal program (`app/`) does the
input and output around it.

## Layout

- `src/config.rs`, `src/config/` — connection settings and their on-disk form.
- `src/db/` — what the SQL parser says about a statement, the SQL text sent
  for browsing and paging, result-cell conversion, and error messages.
- `src/state/` — the state machines of every screen: navigation stack,
  connection list and form, search, SQL editor with history, records pager
  with its row and field selection.
- `src/handlers.rs` — what each key does; work that needs a database or the
  terminal is returned as an effect for the event loop to perform.
- `src/themes/` — color parsing, built-in themes, the theme picker, and how a
  theme configuration is resolved.
- `src/ui/` — the content of each screen as text and toned segments, table
  formatting, SQL highlighting (sqlparser's tokenizer through one wrapper),
  and layout arithmetic.
- `app/` — `main`, the event loop, configuration files, database drivers and
  ratatui drawing.
- `tests/` — tests of the library.

Laws that relate several operations (for example, Backspace undoing a typed
character, saved connections loading back unchanged, or paging back undoing
paging forward) are stated and proved as `law_*` proof functions next to the
operations they speak of.

# mdir

A two-pane terminal file manager driven by vi-style keys, with a command
line (`:cd`, `:sort`, `:find`, ...), mouse support, trash-based deletion and
Git helpers (branch display, pull, checkout).

## Layout

- `src/` — the verified library. Everything the file manager decides lives
  here, with its contract proved by Verus: the application state machine
  (`app.rs`: every action, the requests it makes, and the outcome
  callbacks), key and mouse mapping (`event.rs`), pane state and sorting
  (`fs/`), command parsing, execution, history and completion
  (`command/`), text measurement and screen layout (`ui/`, `width.rs`,
  `edit.rs`), size/permission/path formatting and Git output parsing
  (`utils/`).
- `app/` — the program around it: terminal setup, the event loop, drawing
  with ratatui, and the requests that touch the disk or run processes
  (listing directories, copy/move/trash/rename/chmod, `git`, opening files,
  reading the configuration file).
- `tests/` — tests of the library on concrete values.

The library never touches the disk itself: each action returns a
`Request`; the program performs it and hands the outcome back (for example
`App::operation_done` or `App::entered`).

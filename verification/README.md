# npns

A small terminal file browser (for serial consoles and minimal terminals),
written as a Verus library with a thin program around it.

## Layout

- `src/` — the verified library.
  - `fs_info/fs_core.rs` — the file system core as a state machine: each
    operation (listing, new file, rename, removal, paste with conflict
    resolution and rollback, change of directory, undo) asks for one effect at a time (`Effect`) and
    is resumed with what came of it (`Event`).
  - `fs_info/history.rs` — the bounded undo history and the format of its
    file (header, then length-prefixed records), with the law that reading
    a written file gives the records back.
  - `fs_info/duplicate_handler.rs` — conflict resolution and the
    apply-to-all rules.
  - `browser.rs` — the view (search, hidden files), cursor, marks, input
    line and keys; status, info and preview texts; what a frame draws.
  - `fs/` — listing entries and their order (directories first, then by
    name).
  - `ui/` — text measured in terminal columns, a screen that collects escape
    sequences, and widgets that lay out what to draw as a list of drawing
    operations.
  - `path.rs` — the few path operations the library needs.
- `app/` — the program: terminal setup, file system I/O, serialisation of
  history records, drawing, the event loop.
- `tests/` — tests of the library on concrete values.

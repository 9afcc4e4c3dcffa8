# termide

A terminal text editor whose core is verified with Verus.

- `src/` — the verified library: the rope-backed text buffer and its line
  model, selections, the editor state, key patterns and sequences and their
  parser, editor commands and their parser, the key binding registry with its
  priorities, the default bindings, user configuration entries, the plugin
  binding API, the clipboard errors and the in-memory clipboard, and the
  decisions of the event loop and of the renderer (scrolling, cursor cell,
  status bar, redraw fingerprint), and the name of the temporary file a
  save writes before renaming it over its target.
- `tests/` — tests of the library.
- `app/` — the program: terminal I/O with crossterm and ratatui, files,
  the configuration file (TOML), the system clipboard, and the file watcher.

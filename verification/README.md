# dvup

dvup keeps developer tools up to date from one terminal screen: it shows which
tools are installed and which version is the latest, updates or uninstalls the
selected ones, runs updates in the background when a process is in the way, finds
installations that shadow each other, and installs releases of GitHub
repositories.

The logic of the program is a library that Verus verifies.

- `src/` is that library. `tui/` holds the screen: its state (`app`, `tools`,
  `jobs`, `doctor`, `github`, `settings`), what keys and the mouse do
  (`dispatch`, `list_keys`, `tool_keys`, `modal_keys`, `mouse`, `modal_mouse`),
  the TOML editor (`editor`, `editor_keys`, `history`, `comment`, `nesting`,
  `highlight`) and what is drawn (`screen`, `tables`, `details`, `settings_view`,
  `dialogs`, `editor_view`, `log_view`, `views`, `layout`). `worker`,
  `worker_steps` and `ending` decide what the background worker does and how it
  ends processes, `version` reads versions and the answers of registries,
  `command_line` and `terminal` read command lines and the output of programs.
- Nothing in `src/` reads a file, draws or sends. A handler changes the state and
  notes the effects that are to follow; what comes of an effect is handed back
  by a call of its own.
- `app/` does those effects: it reads the terminal, draws, makes requests and
  runs the worker's steps.
- `tests/` runs the library on examples.

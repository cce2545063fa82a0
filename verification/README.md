# auto_tas

A workbench that attaches to a running game: it lists the games started from
a Steam library, loads a helper library into the one chosen, and shows panels
around it.

- `src/` holds the verified decisions: which processes are offered
  (`processes`), the step-by-step loading of the helper library
  (`injection`), the process picker's state (`center_panel`), the monitors'
  open set (`monitors`), the answers to window events (`events`), and how the
  panels are laid out (`panels`, `fonts`).
- `app/` is the program: the window, the GPU renderer, the drawing calls and
  the Windows system calls, each fed by and feeding the library.
- `tests/` exercises the library on concrete values.

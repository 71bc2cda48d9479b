# singularity_toolkit

The editing, input and layout logic of the Singularity applet toolkit, as a
Verus library whose behaviour is stated in `requires`/`ensures` contracts and
proved.

- `src/` — the verified library:
  - `color`, `ui_event`: colors, modifier keys, keys and input events;
  - `text`, `text_box`: lines of text and the plain text box;
  - `char_grid`: character grids, including the grid made from a text;
  - `focus`, `caching`, `standard_keybinds`: focus moves through nested
    applets, change reporting, and the keybinds every applet shares;
  - `rope`, `code_editor`: the modal code editor over a `ropey` rope;
  - `text_editor`, `command_hub`, `small_applets`: the other applets;
  - `timing`, `time_manager`: timers, timed blocks of work and task timing;
  - `task_organizer`: the task organizer's modes and key handling.
- `tests/` — tests run against the compiled library.
- `app/` — what talks to the outside world (files, clipboard, clocks, other
  programs) and the floating-point display units.

# wezterm_core

The decisions of a terminal emulator's window, and of the probe that checks what
resizing a window does to the text in it, as a verified library.

- `src/` is the library. Every function in it states what it returns, and Verus
  proves it. Two functions of std are taken on trust, `char::is_alphanumeric` and
  `String::push` (in `text`), and the derived impls state nothing.
  - `termwindow`, `ui_events`, `pane_events`, `drag`, `dropping`: what mouse events
    do. The window keeps the state; a handler returns commands for its
    surroundings (`command`), in the order in which they are to be carried out.
  - `paint`, `cursor`: what is painted and in which order, and where the text
    cursor and its trail are.
  - `confirm`: the question before something is closed.
  - `geometry`, `input`, `ui`: the types that these share.
  - `screen`, `violations`, `ticks`: what is wrong with a buffer after a resize.
  - `fixture`, `script`, `scenario`, `probe`: the text that is printed, the sizes
    that are gone through, and what is reported.
  - `text`: strings as sequences of characters.
- `tests/` runs it.
- `app/` is the probe itself, and what needs floating point, the desktop or a
  pseudo console. It converts fractional positions to ranks before it calls the
  library, and carries out the commands.

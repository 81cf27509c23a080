# gar

A tiling window manager for X11: binary-space-partition layouts with a
split direction chosen from the container's shape, ten workspaces spread
over the monitors, floating windows, mouse move/resize/swap, EWMH hints, a
Lua configuration, its own IPC socket (`garctl`) and an i3-compatible IPC
socket for status bars.

## Layout

- `src/` — the verified library (Verus). It holds the state of the window
  manager and every decision it takes: the layout tree (`wm/tree.rs`, with
  its laws in `wm/tree_laws.rs`), workspaces, monitors and windows
  (`wm/manager.rs`), the actions, key and pointer handling (`wm/actions.rs`,
  `wm/navigate.rs`, `wm/dispatch.rs`, `wm/drag.rs`, `wm/motion.rs`,
  `wm/edges.rs`, `wm/handlers.rs`), the layout plan (`wm/layout.rs`), the
  IPC commands and reports (`wm/commands.rs`, `wm/info.rs`, `ipc/`), the
  settings, key specifications and the compositor's configuration file
  (`config/`), the reading of window properties (`x11/properties.rs`) and
  the strips of a gradient border (`x11/gradient.rs`). Each handler returns the list of
  effects the X server must be told, in order; laws that relate several
  functions are in `wm/laws.rs`.
- `app/` — the program around it: the X connection (x11rb), the Lua
  configuration (mlua), the sockets, the compositor's fractional settings
  and colors (floating point), the helper processes, the event loop that hands events to the library and
  carries out its effects, and `garctl`.
- `tests/` — tests of the library.

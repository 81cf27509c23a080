//! gar: the window-management core of a tiling X11 window manager with
//! binary-space-partition layouts, workspaces, monitors, floating windows
//! and an i3-compatible IPC wire protocol.
pub mod config;
pub mod ipc;
pub mod text;
pub mod x11;
pub mod wm;

//! Window management logic of a small Wayland compositor: the stacking order
//! of toplevel windows, their bounding boxes, the interactive move and resize
//! state machines, keyboard shortcuts, cursor animation frames and the
//! decisions taken on host window and X11 events.

pub mod geometry;
pub mod edges;
pub mod surface_tree;
pub mod serial;
pub mod resize;
pub mod window_map;
pub mod compositor;
pub mod keyboard;
pub mod cursor;
pub mod host;
pub mod x11;
pub mod pointer;
pub mod outputs;
pub mod fps;
pub mod traits;

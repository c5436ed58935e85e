# charlie

The window-management logic of a small Wayland compositor, written in Verus
and proved against its contracts.

- `src/` is the library. Each module states what it computes over
  mathematical models (`Seq`, `Map`, `int`) and proves it:
  - `geometry`, `edges`, `surface_tree`: points, rectangles, resize edges
    and the bounding box over a window's surfaces;
  - `window_map`: the stacking order of windows, their popups, lookups,
    raising, refreshing, drawing order and commits;
  - `resize`, `serial`: the interactive resize state machines and the
    wrap-around order of serials;
  - `compositor`, `pointer`: what shell requests and pointer buttons do;
  - `keyboard`: shortcuts and the keys kept from clients;
  - `cursor`: cursor images and the animation frame shown at a time;
  - `host`: how events of host windows become input events;
  - `x11`: the X11 window manager run for Xwayland;
  - `outputs`, `fps`: the connector walk and CRTC allocation, render
    passes and their retries, output names and modes, and the frame-rate
    counter's glyphs;
  - `traits`: what an engine implements.
  The laws of the library (what one operation undoes of another, what
  every operation keeps) are public proof functions beside the code they
  speak of.
- `tests/` runs the library on concrete values.
- `app/` is the program around it: logging, the cursor theme and the X11
  window manager loop. It runs no display backend of its own;
  `app/float_geometry.rs` holds the floating-point parts of placement,
  grabs and scaling that a backend feeds into the library.

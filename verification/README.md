# slint_shell

A Wayland platform for Slint: a window is either a wlr layer-shell surface (bar,
panel, overlay) or a regular xdg toplevel, drawn with Slint's software renderer
into double-buffered shared memory.

- `src/` is the verified library (Verus): options and their fallbacks
  (`options`), renderer selection by name or environment value (`renderer`),
  ARGB8888 pixel compositing (`pixel`), the double-buffered shm pool (`shm`),
  keysym and pointer translation (`keyboard`, `keysym`, `pointer`), redraw
  scheduling of the surface (`window`), the handlers' shared state (`state`)
  and the platform's one-time steps (`platform`).
- `app/` connects it to the compositor (smithay-client-toolkit, wayland-client,
  calloop) and to Slint: it performs the Wayland requests and renderer calls
  that the library decides on.
- `tests/` exercises the library on concrete values.

# tauri_egui

A Tauri plugin that shows an egui window rendered with OpenGL next to Tauri's
webviews.

- `src/` is the verified library: the repaint schedule of the event loop
  (`event_loop`), the lifecycle of the OpenGL context and surface
  (`gl_context`), the registry of OpenGL windows and the per-platform render
  loops (`gl_window`), and the messages a window handle sends (`window`).
- `app/` hooks the library into Tauri's event loop and makes the glutin,
  glow, egui and Tauri calls that the library's decisions ask for.
- `tests/` runs the library on concrete values.

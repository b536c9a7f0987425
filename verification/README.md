# doxle-core

The verified core of Doxle, a floor-plan editor: users click points on a
canvas to draw a polygon (the footprint of a room) and switch between a 2D
plan and a 3D wall view, in a dark or light theme.

- `src/` is the library, written in Verus and proved: points and polygons
  (generic over the coordinate scalar), the drawing state, view mode and
  theme, the inline styles of the user interface, the renderer's mailbox and
  texture bookkeeping, the macOS titlebar choices, the main window's
  description, and loading the window icon (through `image` and `winit`).
- `tests/` exercises the library on concrete values.
- `app/` is the desktop program around it (Dioxus, Bevy, wgpu, and on macOS
  cocoa/objc/dispatch): windows, components, GPU work and floating-point
  points.

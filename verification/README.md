# threedtest

A wgpu/egui 3D viewer whose decisions are verified with Verus.

- `src/` is the verified library: backend choice and its environment key
  (`backend`), the viewer's discrete state and keyboard shortcuts (`state`),
  per-frame planning (`frame`), frame-rate statistics and the rotation trail
  (`stats`), the scene's object list (`scene`), the index buffers of the
  built-in meshes (`mesh`) and the renderer's choices: adapter, surface
  format, sample count, draw plan and screenshot layout (`render`).
- `app/` is the desktop program around it: window and event loop (winit),
  GPU work (wgpu), the UI (egui) and everything floating point (vertex
  positions, matrices, colours, the frame-rate average).
- `tests/` runs the library on concrete values.

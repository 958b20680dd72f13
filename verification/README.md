# mandelbulb

A Mandelbulb viewer. The verified library (`src/`) holds the parts of the
viewer that decide and lay out rather than compute in floating point:

- `state`: when a new frame is rendered (camera edits, the space bar, the
  per-frame tick and the completion of a render), as a transition function
  with its laws;
- `frame`: the order in which rays are cast over the screen and the RGBA
  buffer they are painted into;
- `compute`: the uniform block, workgroup counts and buffer sizes of the
  compute pass;
- `preview`: the character picture printed by the desktop build.

`app/` is the program around it: the egui/eframe window, the wgpu compute
pass and its WGSL shader, the camera model and the CPU ray marcher, all of
which work in floating point or talk to the GPU.

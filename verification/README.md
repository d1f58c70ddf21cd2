# wgpaper

A Wayland wallpaper daemon that cross-fades between randomly picked images
on every output, drawing with wgpu.

- `src/` is the verified library (Verus): the configuration model, GPU
  adapter selection, the random wallpaper picker, image decoding, texture
  upload preparation, scaling/shader choices, the per-surface buffer ring,
  output geometry and the manager's transition steps. Each public function
  carries a contract; the laws that relate several calls are public proof
  functions beside them.
- `app/` is the daemon around it: reading the configuration file and the
  wallpaper directories, the Wayland event loop, the wgpu calls, the
  Bézier timing of transitions and the HTTP endpoint on the Unix socket.
- `tests/` runs the library on concrete inputs.

The daemon loads its compiled SPIR-V shaders at start-up from the file named
by `WGPAPER_SHADERS_SPV`, or from `/usr/share/wgpaper/wgpaper_shaders.spv`.

# rust_raytracer

An interactive Monte Carlo path tracer. The verified library (`src/`, checked
with Verus) holds the integer and text logic of the renderer; the program in
`app/` holds the floating-point rendering (vectors, rays, materials, camera,
BVH traversal), the parallel pixel loop and the window.

Library modules:

- `decimal` – decimal text of unsigned integers.
- `ppm` – the plain-text PPM document of an image.
- `raster` – the `Renderer` raster: pixel index ↔ image coordinates (a proved
  bijection), the RGBA byte layout of a frame, and nearest-neighbour
  enlargement of low-resolution preview frames.
- `viewer` – the event handling of the interactive window as a state
  machine: mouse capture, orbiting, preview frames while the camera moves,
  progressive accumulation for as long as the camera is still, and the
  window title.
- `bvh_plan` – how a BVH node divides its objects, with a proof that the
  resulting tree has logarithmic depth.
- `rng` – the xorshift64 generator, proved never to reach the zero state.

`tests/` exercises the library on concrete values.

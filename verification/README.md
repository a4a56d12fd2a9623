# papers

A Wayland viewer for animated GIFs.

- `src/` is the verified library:
  - `pixels.rs`: conversion of palette indices to BGRA pixels;
  - `gif_processor.rs`: decoding a GIF (through the `gif` crate) into BGRA frames and delays;
  - `viewer.rs`: the viewer's state and decisions: frame timing, when to draw, how long to
    sleep, how to lay out the shared-memory buffer, which registry globals to bind.
- `app/main.rs` reads the file and talks to the compositor (`wayland-client`,
  `wayland-protocols`, `tempfile`), following the library's decisions.
- `tests/` exercise the library on GIFs built in memory.

# RustyImage

An image, animation and vector converter (PNG, JPEG, WebP, GIF, APNG, BMP, ICO,
TIFF, TGA, SVG) whose conversion logic is written in Verus and proved against its
contracts.

## Layout

- `src/` — the verified library.
  - `raster.rs`, `frame.rs`: the pixel model (RGBA images, frames with delays).
  - `codec/`: PNG/APNG sample conversion and frame composition, GIF frames, still
    export planning, SVG rasterizing and tracing, and loading by file type. The
    calls into `png`, `image`, `resvg`, `tiny-skia` and `vtracer` sit in small
    trusted wrappers (`png_bridge.rs`, `image_bridge.rs`, `svg_codec.rs`) whose
    contracts state what the library relies on.
  - `converter.rs`: batch jobs, the worker's bookkeeping and the interface's view
    of a running conversion.
  - `app_state.rs`: the window's state and decisions (destinations, conversion
    plans, messages).
  - `registry.rs`: the `reg.exe` commands of the Explorer context menu entry.
  - `i18n.rs`, `text.rs`, `paths.rs`: interface texts, decimal numbers, path calls.
- `app/` — the egui program around the library: window layout, file dialogs,
  reading and writing files, the worker thread, running `reg.exe`, and the
  floating-point parts (alpha compositing, icon aspect ratio, widgets).
- `tests/` — tests of the library, run against the real codecs.

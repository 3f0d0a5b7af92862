# fast_qr_py

A QR code toolkit whose core is formally verified. It builds QR code symbols
and renders them to terminal text and SVG through the `fast_qr` crate, and
exposes the whole as a Python module through `pyo3`.

- `src/` is the verified library: the options (`ECL`, `Mode`, `Mask`,
  `Shape`, `ImageBackgroundShape`), `Version`, `Color`, the `QRBuilder` and its
  encoding outcome, the `QRCode` symbol (size, module matrix, terminal text),
  and the SVG and PNG style builders. The calls into `fast_qr` sit behind small
  trusted functions in `encoder.rs`, `svg_render.rs` and `symbol.rs`, whose
  contracts name what `fast_qr` computes.
- `app/` is the Python module `_fast_qr`: Python classes over the library
  types, error messages, the floating-point image placement settings and the
  PNG rendering.
- `tests/` exercises the library, including comparisons with `fast_qr` used
  directly.

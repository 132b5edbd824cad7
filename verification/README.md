# pipeline

The verified core of a HAL ↔ Burn image pipeline for YOLO detection models:
an image is letterboxed and converted by the EdgeFirst HAL, handed to a Burn
model, and the model output is decoded (with NMS) by the HAL decoder.

- `src/` — the library, verified with Verus:
  - `formats` — element types, pixel formats and memory backings as plain
    enums; the HAL's channel count and element size.
  - `preprocess` — `PreprocessConfig`, the letterbox metadata of a run, the
    choice between zero-copy and host import and the shapes and dtypes each
    one uploads.
  - `letterbox` — the exact letterbox content region and its laws (inside
    the unit square, centred, aspect preserving, spanning one axis, …).
  - `export` — the Burn → HAL dtype mapping and the byte-budget checks of a
    host export.
  - `postprocess` — the HAL decoder configuration for an ultralytics output.
  - `error` — `PipelineError`.
- `app/` — the glue that calls the HAL image processor and decoder and moves
  Burn tensors, with the float views of the geometry.
- `tests/` — tests of the library.
